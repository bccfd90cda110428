use softshell::engine::{
    answer_for, ask_prompt, call_scripted, complaint_of, concluded, history_setting, initialize,
    load_config, name_of_kind, prompt_text, reply_for, reply_of, script_verdict, setting_or,
    ConfigLoad, Engine, PromptAnswer, Reply, ValueKind,
};

fn failure(message: &str) -> mlua::Error {
    mlua::Error::RuntimeError(message.to_string())
}

#[test]
fn complaint_comes_with_a_failed_load_only() {
    assert_eq!(complaint_of(Ok(())), None);
    let complaint = complaint_of(Err(failure("no debug")));
    assert!(matches!(complaint, Some(text) if text.contains("no debug")));
}

#[test]
fn initialize_reports_the_library_that_a_safe_interpreter_refuses() {
    let (lua, complaint) = initialize();
    assert!(complaint.is_some());
    let kind: String = lua.load("return type(string.format)").eval().unwrap();
    assert_eq!(kind, "function");
}

#[test]
fn a_failed_script_ends_the_load_softly() {
    assert_eq!(script_verdict(Ok(())), None);
    let verdict = script_verdict(Err(failure("bad script")));
    assert!(matches!(verdict, Some(ConfigLoad::ScriptFailed(text)) if text.contains("bad script")));
}

#[test]
fn a_load_is_applied_only_where_the_path_was_taken() {
    let load = ConfigLoad::Applied {
        modules_path: "./modules".to_string(),
        search_path: "./modules/?.lua;./?.lua".to_string(),
    };
    assert_eq!(concluded(load.clone(), Ok(())), Ok(load.clone()));
    let refused = concluded(load, Err(failure("read-only")));
    assert!(matches!(refused, Err(text) if text.contains("read-only")));
}

#[test]
fn answers_for_each_lookup() {
    assert_eq!(answer_for(Ok(Ok("p> ".to_string()))), PromptAnswer::Ready("p> ".to_string()));
    assert!(matches!(
        answer_for(Ok(Err(failure("boom")))),
        PromptAnswer::Broken(text) if text.contains("boom")
    ));
    assert!(matches!(
        answer_for(Err(failure("nil value"))),
        PromptAnswer::Missing(text) if text.contains("nil value")
    ));
}

#[test]
fn replies_for_each_outcome() {
    assert_eq!(reply_of(Ok((ValueKind::Nil, None))), Reply::Nothing);
    assert_eq!(
        reply_of(Ok((ValueKind::Text, Some(Ok("out".to_string()))))),
        Reply::Text("out".to_string())
    );
    assert!(matches!(
        reply_of(Ok((ValueKind::Text, Some(Err(failure("not utf-8")))))),
        Reply::Failed(text) if text.contains("not utf-8")
    ));
    assert_eq!(reply_of(Ok((ValueKind::Boolean, None))), Reply::Other("boolean".to_string()));
    assert!(matches!(
        reply_of(Err(failure("module not found"))),
        Reply::Failed(text) if text.contains("module not found")
    ));
}

#[test]
fn engine_is_made_once_and_stays() {
    let mut engine = Engine::new();
    assert!(!engine.is_ready());
    assert!(engine.get().is_none());
    engine.start();
    assert!(engine.is_ready());
    engine.get().unwrap().globals().set("mark", 7).unwrap();
    assert_eq!(engine.start(), None);
    assert!(engine.is_ready());
    let mark: i64 = engine.get().unwrap().globals().get("mark").unwrap();
    assert_eq!(mark, 7);
}

#[test]
fn setting_or_takes_the_setting_or_the_fallback() {
    assert_eq!(setting_or(Ok("a".to_string()), "b".to_string()), "a");
    let failure = mlua::Error::RuntimeError("none".to_string());
    assert_eq!(setting_or(Err(failure), "b".to_string()), "b");
}

#[test]
fn initialize_hands_out_a_working_interpreter() {
    let (lua, _) = initialize();
    let version: String = lua.globals().get("_VERSION").unwrap();
    assert!(version.starts_with("Lua"));
}

#[test]
fn history_setting_defaults_without_a_binding() {
    let (lua, _) = initialize();
    assert_eq!(history_setting(&lua), "~/.sfsh_history");
}

#[test]
fn history_setting_reads_the_binding() {
    let (lua, _) = initialize();
    assert!(load_config(&lua, "history_file = '/tmp/h'").is_ok());
    assert_eq!(history_setting(&lua), "/tmp/h");
}

#[test]
fn history_setting_ignores_a_binding_of_another_type() {
    let (lua, _) = initialize();
    assert!(load_config(&lua, "history_file = {}").is_ok());
    assert_eq!(history_setting(&lua), "~/.sfsh_history");
}

#[test]
fn load_config_prepends_the_default_module_directory() {
    let (lua, _) = initialize();
    let package: mlua::Table = lua.globals().get("package").unwrap();
    let before: String = package.get("path").unwrap();
    let loaded = load_config(&lua, "x = 1");
    let expected = format!("./modules/?.lua;{}", before);
    assert_eq!(
        loaded,
        Ok(ConfigLoad::Applied {
            modules_path: "./modules".to_string(),
            search_path: expected.clone(),
        })
    );
    let after: String = package.get("path").unwrap();
    assert_eq!(after, expected);
}

#[test]
fn load_config_prepends_the_configured_module_directory() {
    let (lua, _) = initialize();
    let package: mlua::Table = lua.globals().get("package").unwrap();
    let before: String = package.get("path").unwrap();
    let loaded = load_config(&lua, "modules_path = '/opt/mods'");
    let expected = format!("/opt/mods/?.lua;{}", before);
    assert_eq!(
        loaded,
        Ok(ConfigLoad::Applied {
            modules_path: "/opt/mods".to_string(),
            search_path: expected.clone(),
        })
    );
    let after: String = package.get("path").unwrap();
    assert_eq!(after, expected);
}

#[test]
fn load_config_of_a_failing_script_keeps_the_defaults() {
    let (lua, _) = initialize();
    let package: mlua::Table = lua.globals().get("package").unwrap();
    let before: String = package.get("path").unwrap();
    let loaded = load_config(&lua, "this is no script");
    assert!(matches!(loaded, Ok(ConfigLoad::ScriptFailed(_))));
    let after: String = package.get("path").unwrap();
    assert_eq!(after, before);
}

#[test]
fn load_config_without_a_search_path_is_an_error() {
    let (lua, _) = initialize();
    assert!(load_config(&lua, "package = nil").is_err());
}

#[test]
fn prompt_comes_from_the_prompt_function() {
    let (lua, _) = initialize();
    assert!(load_config(&lua, "function get_prompt() return 'here> ' end").is_ok());
    let answer = ask_prompt(&lua);
    assert_eq!(answer, PromptAnswer::Ready("here> ".to_string()));
    assert_eq!(prompt_text(&answer), "here> ");
}

#[test]
fn prompt_falls_back_without_a_prompt_function() {
    let (lua, _) = initialize();
    let answer = ask_prompt(&lua);
    assert!(matches!(answer, PromptAnswer::Missing(_)));
    assert_eq!(prompt_text(&answer), "sfsh_rust_fallback> ");
}

#[test]
fn prompt_of_a_failing_prompt_function() {
    let (lua, _) = initialize();
    assert!(load_config(&lua, "function get_prompt() error('x') end").is_ok());
    let answer = ask_prompt(&lua);
    assert!(matches!(answer, PromptAnswer::Broken(_)));
    assert_eq!(prompt_text(&answer), "sfsh_rust_error> ");
}

#[test]
fn call_scripted_passes_each_argument_as_a_string() {
    let (lua, _) = initialize();
    let script = "package.loaded['m'] = { join = function(a, b, c) return a .. '-' .. b .. '-' .. type(c) end }";
    assert!(load_config(&lua, script).is_ok());
    let args = vec!["x".to_string(), "y".to_string()];
    assert_eq!(call_scripted(&lua, "m", "join", &args), Reply::Text("x-y-nil".to_string()));
}

#[test]
fn call_scripted_of_an_unknown_module_fails() {
    let (lua, _) = initialize();
    assert!(matches!(call_scripted(&lua, "no_such_module", "f", &vec![]), Reply::Failed(_)));
}

#[test]
fn replies_for_values() {
    assert_eq!(reply_for(ValueKind::Nil, None), Reply::Nothing);
    assert_eq!(
        reply_for(ValueKind::Text, Some(Ok("s".to_string()))),
        Reply::Text("s".to_string())
    );
    assert_eq!(reply_for(ValueKind::Number, None), Reply::Other("number".to_string()));
    assert_eq!(reply_for(ValueKind::Table, None), Reply::Other("table".to_string()));
}

#[test]
fn kind_names_are_the_interpreters() {
    let (lua, _) = initialize();
    let cases = [
        (ValueKind::Nil, "nil"),
        (ValueKind::Boolean, "true"),
        (ValueKind::Number, "1.5"),
        (ValueKind::Text, "'s'"),
        (ValueKind::Table, "{}"),
        (ValueKind::Function, "print"),
        (ValueKind::Thread, "coroutine.create(print)"),
    ];
    for (kind, source) in cases {
        let chunk = format!("return type({})", source);
        let name: String = lua.load(chunk.as_str()).eval().unwrap();
        assert_eq!(name_of_kind(kind), name);
    }
    assert_eq!(name_of_kind(ValueKind::Integer), "integer");
    assert_eq!(name_of_kind(ValueKind::LightUserData), "lightuserdata");
    assert_eq!(name_of_kind(ValueKind::UserData), "userdata");
    assert_eq!(name_of_kind(ValueKind::Error), "error");
    assert_eq!(name_of_kind(ValueKind::Other), "other");
}
