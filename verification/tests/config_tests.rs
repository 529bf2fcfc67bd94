use fgpt::config::{effective_log_level, language_from_env, prefix_before};
use fgpt::{AppState, Options};

fn bare_options() -> Options {
    Options {
        question: None,
        debug: false,
        model: None,
        lang: None,
        proxy: None,
        log_file: None,
        log_level: String::new(),
        code: false,
        file: None,
        repl: false,
        stats: false,
        serve: None,
        prefix: None,
        disable_cors: false,
    }
}

#[test]
fn prefix_before_stops_at_the_first_separator() {
    assert_eq!(prefix_before("en-US", '-'), "en");
    assert_eq!(prefix_before("en", '-'), "en");
    assert_eq!(prefix_before("", '-'), "");
    assert_eq!(prefix_before("-US", '-'), "");
    assert_eq!(prefix_before("zh-Hans-CN", '-'), "zh");
    assert_eq!(prefix_before("en_US.UTF-8", '.'), "en_US");
}

#[test]
fn language_comes_from_the_environment_without_its_encoding() {
    assert_eq!(language_from_env(&Some("en_US.UTF-8".to_string())), "en_US");
    assert_eq!(language_from_env(&Some("de-DE".to_string())), "de-DE");
    assert_eq!(language_from_env(&None), "en-US");
}

#[test]
fn absent_options_get_their_defaults() {
    let state = AppState::with_device_id(
        bare_options(),
        Some("fr_FR.UTF-8".to_string()),
        "device-1".to_string(),
    );
    assert_eq!(state.device_id, "device-1");
    assert_eq!(state.lang, "fr_FR");
    assert_eq!(state.model, "text-davinci-002-render-sha");
    assert_eq!(state.prefix, "/v1");
    assert_eq!(state.serve_addr, "");
    assert_eq!(state.proxy, None);
    assert_eq!(state.qusetion, None);
    assert_eq!(state.input_file, None);
    assert!(!state.code && !state.repl && !state.dump_stats);
}

#[test]
fn present_options_are_taken_as_they_are() {
    let mut options = bare_options();
    options.question = Some("why?".to_string());
    options.model = Some("m".to_string());
    options.lang = Some("ja-JP".to_string());
    options.proxy = Some("http://127.0.0.1:8080".to_string());
    options.code = true;
    options.file = Some("in.txt".to_string());
    options.repl = true;
    options.stats = true;
    options.serve = Some("127.0.0.1:4000".to_string());
    options.prefix = Some("/api".to_string());
    let state = AppState::with_device_id(options, Some("fr_FR.UTF-8".to_string()), "d".to_string());
    assert_eq!(state.qusetion.as_deref(), Some("why?"));
    assert_eq!(state.model, "m");
    assert_eq!(state.lang, "ja-JP");
    assert_eq!(state.proxy.as_deref(), Some("http://127.0.0.1:8080"));
    assert!(state.code && state.repl && state.dump_stats);
    assert_eq!(state.input_file.as_deref(), Some("in.txt"));
    assert_eq!(state.serve_addr, "127.0.0.1:4000");
    assert_eq!(state.prefix, "/api");
}

#[test]
fn from_options_draws_a_device_identifier() {
    let a = AppState::from_options(bare_options(), None);
    let b = AppState::from_options(bare_options(), None);
    assert_eq!(a.lang, "en-US");
    assert_eq!(a.device_id.len(), 36);
    assert_ne!(a.device_id, b.device_id);
}

#[test]
fn the_prompt_runs_when_asked_or_when_nothing_is_asked() {
    let state = AppState::with_device_id(bare_options(), None, "d".to_string());
    assert!(state.wants_repl());
    assert!(!state.wants_server());

    let mut options = bare_options();
    options.question = Some("q".to_string());
    let state = AppState::with_device_id(options, None, "d".to_string());
    assert!(!state.wants_repl());

    let mut options = bare_options();
    options.file = Some("f".to_string());
    let state = AppState::with_device_id(options, None, "d".to_string());
    assert!(!state.wants_repl());

    let mut options = bare_options();
    options.question = Some("q".to_string());
    options.repl = true;
    options.serve = Some("0.0.0.0:80".to_string());
    let state = AppState::with_device_id(options, None, "d".to_string());
    assert!(state.wants_repl());
    assert!(state.wants_server());
}

#[test]
fn debugging_sets_the_level_only_when_none_is_named() {
    assert_eq!(effective_log_level(true, ""), "debug");
    assert_eq!(effective_log_level(true, "warn"), "warn");
    assert_eq!(effective_log_level(false, ""), "");
    assert_eq!(effective_log_level(false, "trace"), "trace");
}
