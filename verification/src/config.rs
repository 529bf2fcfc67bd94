//! Process-wide configuration, fixed after start-up and shared by reference.

use crate::bindings::random_uuid;
use std::sync::Arc;
use vstd::prelude::*;
use vstd::string::*;

verus! {

/// The settings every request of the process shares.
#[derive(Clone)]
pub struct AppState {
    pub proxy: Option<String>,
    pub device_id: String,
    pub code: bool,
    pub model: String,
    pub lang: String,
    pub qusetion: Option<String>,
    pub input_file: Option<String>,
    pub repl: bool,
    pub dump_stats: bool,
    pub prefix: String,
    pub serve_addr: String,
}

pub type AppStateRef = Arc<AppState>;

/// What the command line supplies, before defaults are filled in.
#[derive(Debug, Clone)]
pub struct Options {
    pub question: Option<String>,
    pub debug: bool,
    pub model: Option<String>,
    pub lang: Option<String>,
    pub proxy: Option<String>,
    pub log_file: Option<String>,
    pub log_level: String,
    pub code: bool,
    pub file: Option<String>,
    pub repl: bool,
    pub stats: bool,
    pub serve: Option<String>,
    pub prefix: Option<String>,
    pub disable_cors: bool,
}

/// How many characters of `text` come before the first `sep` (all of them
/// when there is none).
pub open spec fn span_before(text: Seq<char>, sep: char) -> nat
    decreases text.len(),
{
    if text.len() == 0 || text[0] == sep {
        0
    } else {
        1 + span_before(text.drop_first(), sep)
    }
}

/// The part of `text` before the first `sep`.
pub open spec fn before_first(text: Seq<char>, sep: char) -> Seq<char> {
    text.take(span_before(text, sep) as int)
}

/// An index that is the first separator, or the end of a text without one,
/// is the span before the first separator.
pub proof fn lemma_span_before_is(text: Seq<char>, sep: char, i: int)
    requires
        0 <= i <= text.len(),
        forall|j: int| 0 <= j < i ==> text[j] != sep,
        i < text.len() ==> text[i] == sep,
    ensures
        span_before(text, sep) == i,
    decreases text.len(),
{
    if text.len() == 0 || text[0] == sep {
        if i > 0 {
            assert(text[0] != sep);
        }
    } else {
        let rest = text.drop_first();
        assert(i > 0);
        assert forall|j: int| 0 <= j < i - 1 implies rest[j] != sep by {
            assert(rest[j] == text[j + 1]);
        }
        lemma_span_before_is(rest, sep, i - 1);
    }
}

/// The part of `text` before the first `sep`, or all of it when there is
/// none.
pub fn prefix_before(text: &str, sep: char) -> (head: String)
    ensures
        head@ == before_first(text@, sep),
{
    let n = text.unicode_len();
    let mut i: usize = 0;
    while i < n && text.get_char(i) != sep
        invariant
            i <= n,
            n == text@.len(),
            forall|j: int| 0 <= j < i ==> text@[j] != sep,
        decreases n - i,
    {
        i += 1;
    }
    proof {
        lemma_span_before_is(text@, sep, i as int);
    }
    String::from_str(text.substring_char(0, i))
}

/// The language tag that an environment's `LANG` value stands for: the value
/// up to its first `.`, and `en-US` when the variable is unset.
pub open spec fn env_language(value: Option<Seq<char>>) -> Seq<char> {
    match value {
        Some(v) => before_first(v, '.'),
        None => before_first("en-US"@, '.'),
    }
}

/// The short form of a language tag: what stands before its first `-`.
pub open spec fn short_language(lang: Seq<char>) -> Seq<char> {
    before_first(lang, '-')
}

/// Computes the language tag for a `LANG` value.
pub fn language_from_env(value: &Option<String>) -> (lang: String)
    ensures
        lang@ == env_language(
            match *value {
                Some(v) => Some(v@),
                None => None,
            },
        ),
{
    match value {
        Some(v) => prefix_before(v.as_str(), '.'),
        None => prefix_before("en-US", '.'),
    }
}

/// The model asked for when the command line names none.
pub open spec fn default_model() -> Seq<char> {
    "text-davinci-002-render-sha"@
}

/// The path prefix of the served endpoint when the command line names none.
pub open spec fn default_prefix() -> Seq<char> {
    "/v1"@
}

fn or_default(value: Option<String>, fallback: &str) -> (chosen: String)
    ensures
        chosen@ == (match value {
            Some(v) => v@,
            None => fallback@,
        }),
{
    match value {
        Some(v) => v,
        None => String::from_str(fallback),
    }
}

/// The log level in force: `debug` when debugging is asked for and no level
/// is named, else the level named.
pub fn effective_log_level(debug: bool, log_level: &str) -> (level: String)
    ensures
        level@ == (if debug && log_level@.len() == 0 {
            "debug"@
        } else {
            log_level@
        }),
{
    if debug && log_level.is_empty() {
        String::from_str("debug")
    } else {
        String::from_str(log_level)
    }
}

impl AppState {
    /// Whether `state` is what `options` stand for, given the `LANG` value
    /// and the device identifier of the process: options that are present
    /// are taken as they are, absent ones get their defaults.
    pub open spec fn resolves(
        state: AppState,
        options: Options,
        env_lang: Option<Seq<char>>,
        device_id: Seq<char>,
    ) -> bool {
        &&& state.device_id@ == device_id
        &&& state.code == options.code
        &&& state.qusetion == options.question
        &&& state.input_file == options.file
        &&& state.repl == options.repl
        &&& state.dump_stats == options.stats
        &&& state.proxy == options.proxy
        &&& state.lang@ == (match options.lang {
            Some(l) => l@,
            None => env_language(env_lang),
        })
        &&& state.model@ == (match options.model {
            Some(m) => m@,
            None => default_model(),
        })
        &&& state.prefix@ == (match options.prefix {
            Some(p) => p@,
            None => default_prefix(),
        })
        &&& state.serve_addr@ == (match options.serve {
            Some(s) => s@,
            None => Seq::<char>::empty(),
        })
    }

    /// Fills in the defaults around the given device identifier.
    pub fn with_device_id(options: Options, env_lang: Option<String>, device_id: String) -> (state:
        AppState)
        ensures
            AppState::resolves(
                state,
                options,
                match env_lang {
                    Some(v) => Some(v@),
                    None => None,
                },
                device_id@,
            ),
    {
        let lang = match options.lang {
            Some(l) => l,
            None => language_from_env(&env_lang),
        };
        proof {
            reveal_strlit("");
            assert(""@ =~= Seq::<char>::empty());
        }
        AppState {
            device_id,
            code: options.code,
            qusetion: options.question,
            input_file: options.file,
            repl: options.repl,
            dump_stats: options.stats,
            proxy: options.proxy,
            lang,
            model: or_default(options.model, "text-davinci-002-render-sha"),
            prefix: or_default(options.prefix, "/v1"),
            serve_addr: or_default(options.serve, ""),
        }
    }

    /// Fills in the defaults and draws a fresh device identifier for the
    /// process; the identifier is random, everything else is determined.
    pub fn from_options(options: Options, env_lang: Option<String>) -> (state: AppState)
        ensures
            AppState::resolves(
                state,
                options,
                match env_lang {
                    Some(v) => Some(v@),
                    None => None,
                },
                state.device_id@,
            ),
    {
        AppState::with_device_id(options, env_lang, random_uuid())
    }

    /// Whether the process runs the interactive prompt: when asked to, and
    /// when there is neither a question nor an input file.
    pub open spec fn interactive(&self) -> bool {
        self.repl || (self.qusetion is None && self.input_file is None)
    }

    /// Decides whether the process runs the interactive prompt.
    pub fn wants_repl(&self) -> (yes: bool)
        ensures
            yes == self.interactive(),
    {
        self.repl || (self.qusetion.is_none() && self.input_file.is_none())
    }

    /// Decides whether the process serves the HTTP endpoint: when an address
    /// to serve at was given.
    pub fn wants_server(&self) -> (yes: bool)
        ensures
            yes == (self.serve_addr@.len() > 0),
    {
        !self.serve_addr.as_str().is_empty()
    }
}

} // verus!
