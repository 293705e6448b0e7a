//! The capability modules of a context and the globals that each of them binds.
//!
//! The modules are composed when a context is created. Their order does not
//! matter, because no two of them bind the same global.

use vstd::prelude::*;

verus! {

/// Binds `console`.
pub struct ConsoleExt;

/// Binds `atob` and `btoa`.
pub struct Base64UtilsExt;

/// Binds `addEventListener`.
pub struct EventListerExt;

/// Binds the `Response` constructor.
pub struct FetchExt;

/// Binds `navigator`.
pub struct NavigatorExt;

/// Binds the timer functions and `queueMicrotask`.
pub struct TimersExt;

/// The texts of a list of names.
pub open spec fn texts(names: Seq<String>) -> Seq<Seq<char>> {
    names.map_values(|name: String| name@)
}

impl ConsoleExt {
    /// The globals that the module binds.
    pub open spec fn global_names() -> Seq<Seq<char>> {
        seq!["console"@]
    }

    /// The globals that the module binds.
    pub fn globals(&self) -> (names: Vec<String>)
        ensures
            texts(names@) == Self::global_names(),
    {
        let names = vec!["console".to_string()];
        assert(texts(names@) =~= Self::global_names());
        names
    }
}

impl ConsoleExt {
    /// The methods of the `console` object. Each of them hands its arguments
    /// to the logger under its own name.
    pub open spec fn method_names() -> Seq<Seq<char>> {
        seq![
            "assert"@,
            "clear"@,
            "debug"@,
            "error"@,
            "info"@,
            "log"@,
            "table"@,
            "trace"@,
            "warn"@,
            "dir"@,
            "dirxml"@,
            "count"@,
            "countReset"@,
            "group"@,
            "groupCollapsed"@,
            "groupEnd"@,
            "time"@,
            "timeLog"@,
            "timeEnd"@,
            "timeStamp"@,
        ]
    }

    /// The methods of the `console` object.
    pub fn methods(&self) -> (names: Vec<String>)
        ensures
            texts(names@) == Self::method_names(),
            names@.len() == 20,
    {
        let names = vec![
            "assert".to_string(),
            "clear".to_string(),
            "debug".to_string(),
            "error".to_string(),
            "info".to_string(),
            "log".to_string(),
            "table".to_string(),
            "trace".to_string(),
            "warn".to_string(),
            "dir".to_string(),
            "dirxml".to_string(),
            "count".to_string(),
            "countReset".to_string(),
            "group".to_string(),
            "groupCollapsed".to_string(),
            "groupEnd".to_string(),
            "time".to_string(),
            "timeLog".to_string(),
            "timeEnd".to_string(),
            "timeStamp".to_string(),
        ];
        assert(texts(names@) =~= Self::method_names());
        names
    }
}

impl Base64UtilsExt {
    /// The globals that the module binds.
    pub open spec fn global_names() -> Seq<Seq<char>> {
        seq!["atob"@, "btoa"@]
    }

    /// The globals that the module binds.
    pub fn globals(&self) -> (names: Vec<String>)
        ensures
            texts(names@) == Self::global_names(),
    {
        let names = vec!["atob".to_string(), "btoa".to_string()];
        assert(texts(names@) =~= Self::global_names());
        names
    }
}

impl EventListerExt {
    /// The globals that the module binds.
    pub open spec fn global_names() -> Seq<Seq<char>> {
        seq!["addEventListener"@]
    }

    /// The globals that the module binds.
    pub fn globals(&self) -> (names: Vec<String>)
        ensures
            texts(names@) == Self::global_names(),
    {
        let names = vec!["addEventListener".to_string()];
        assert(texts(names@) =~= Self::global_names());
        names
    }
}

impl FetchExt {
    /// The globals that the module binds.
    pub open spec fn global_names() -> Seq<Seq<char>> {
        seq!["Response"@]
    }

    /// The globals that the module binds.
    pub fn globals(&self) -> (names: Vec<String>)
        ensures
            texts(names@) == Self::global_names(),
    {
        let names = vec!["Response".to_string()];
        assert(texts(names@) =~= Self::global_names());
        names
    }
}

impl NavigatorExt {
    /// The globals that the module binds.
    pub open spec fn global_names() -> Seq<Seq<char>> {
        seq!["navigator"@]
    }

    /// What `navigator.userAgent` reads as, whatever a script assigns to it.
    pub open spec fn agent_text() -> Seq<char> {
        "OpenWorkers/dev"@
    }

    /// The globals that the module binds.
    pub fn globals(&self) -> (names: Vec<String>)
        ensures
            texts(names@) == Self::global_names(),
    {
        let names = vec!["navigator".to_string()];
        assert(texts(names@) =~= Self::global_names());
        names
    }

    /// The value of `navigator.userAgent`.
    pub fn user_agent(&self) -> (agent: String)
        ensures
            agent@ == Self::agent_text(),
    {
        "OpenWorkers/dev".to_string()
    }
}

impl TimersExt {
    /// The globals that the module binds.
    pub open spec fn global_names() -> Seq<Seq<char>> {
        seq![
            "setTimeout"@,
            "clearTimeout"@,
            "setInterval"@,
            "clearInterval"@,
            "queueMicrotask"@,
        ]
    }

    /// The globals that the module binds.
    pub fn globals(&self) -> (names: Vec<String>)
        ensures
            texts(names@) == Self::global_names(),
    {
        let names = vec![
            "setTimeout".to_string(),
            "clearTimeout".to_string(),
            "setInterval".to_string(),
            "clearInterval".to_string(),
            "queueMicrotask".to_string(),
        ];
        assert(texts(names@) =~= Self::global_names());
        names
    }
}

/// Every global that a context with all modules has, module by module.
pub open spec fn all_global_names() -> Seq<Seq<char>> {
    ConsoleExt::global_names() + Base64UtilsExt::global_names() + EventListerExt::global_names()
        + FetchExt::global_names() + NavigatorExt::global_names() + TimersExt::global_names()
}

/// No global is bound by two modules, so the modules can be registered in any
/// order.
pub proof fn lemma_globals_are_distinct()
    ensures
        all_global_names().no_duplicates(),
        all_global_names().len() == 11,
{
    reveal_strlit("console");
    reveal_strlit("atob");
    reveal_strlit("btoa");
    reveal_strlit("addEventListener");
    reveal_strlit("Response");
    reveal_strlit("navigator");
    reveal_strlit("setTimeout");
    reveal_strlit("clearTimeout");
    reveal_strlit("setInterval");
    reveal_strlit("clearInterval");
    reveal_strlit("queueMicrotask");
    let all = all_global_names();
    assert(all =~= seq![
        "console"@,
        "atob"@,
        "btoa"@,
        "addEventListener"@,
        "Response"@,
        "navigator"@,
        "setTimeout"@,
        "clearTimeout"@,
        "setInterval"@,
        "clearInterval"@,
        "queueMicrotask"@,
    ]);
    assert(all[0].len() == 7 && all[0][0] == 'c');
    assert(all[1].len() == 4 && all[1][0] == 'a');
    assert(all[2].len() == 4 && all[2][0] == 'b');
    assert(all[3].len() == 16);
    assert(all[4].len() == 8);
    assert(all[5].len() == 9);
    assert(all[6].len() == 10);
    assert(all[7].len() == 12);
    assert(all[8].len() == 11);
    assert(all[9].len() == 13);
    assert(all[10].len() == 14);
}

} // verus!
