//! Macro expansion for profile variables such as `${HOME}`.
use vstd::prelude::*;
use crate::text::{
    chars_of, chars_of_string, concat, own, replace, replace_all, occurs_at,
    lemma_replace_absent, string_of, vec_eq,
};

verus! {

/// The environment values the standard macros are made from; `None` stands
/// for a variable that is not set.
pub struct MacroEnvironment {
    /// `HOME`.
    pub home: Option<String>,
    /// `USER`.
    pub user: Option<String>,
    /// `XDG_RUNTIME_DIR`.
    pub xdg_runtime_dir: Option<String>,
    /// `PATH`.
    pub path: Option<String>,
    /// `XDG_CONFIG_HOME`.
    pub xdg_config_home: Option<String>,
}

/// Expands macros in profiles.
///
/// Each macro name occurs once; macros are kept, and expanded, in the order
/// in which they were first defined.
#[derive(Debug)]
pub struct MacroExpander {
    vars: Vec<(String, String)>,
}

/// A macro table as (name, value) pairs of character sequences.
pub type MacroTable = Seq<(Seq<char>, Seq<char>)>;

/// The text `${name}` that stands for a macro.
pub open spec fn macro_pattern(name: Seq<char>) -> Seq<char> {
    "${"@ + name + "}"@
}

/// Index of the entry for `name`, if any.
pub open spec fn entry_index(table: MacroTable, name: Seq<char>) -> Option<int>
    decreases table.len(),
{
    if table.len() == 0 {
        None
    } else if table[0].0 == name {
        Some(0)
    } else {
        match entry_index(table.skip(1), name) {
            Some(i) => Some(i + 1),
            None => None,
        }
    }
}

/// The value of macro `name`, if it is defined.
pub open spec fn lookup(table: MacroTable, name: Seq<char>) -> Option<Seq<char>> {
    match entry_index(table, name) {
        Some(i) => Some(table[i].1),
        None => None,
    }
}

/// The table after defining `name` as `value`: an existing definition is
/// replaced in place, a new one is appended.
pub open spec fn define(table: MacroTable, name: Seq<char>, value: Seq<char>) -> MacroTable {
    match entry_index(table, name) {
        Some(i) => table.update(i, (name, value)),
        None => table.push((name, value)),
    }
}

/// Every name occurs once.
pub open spec fn names_distinct(table: MacroTable) -> bool {
    forall|i: int, j: int|
        0 <= i < table.len() && 0 <= j < table.len() && i != j ==> #[trigger] table[i].0
            != #[trigger] table[j].0
}

/// The result of expanding `s` with the table: each macro in table order
/// replaces every `${name}` by its value.
pub open spec fn expand_all(table: MacroTable, s: Seq<char>) -> Seq<char>
    decreases table.len(),
{
    if table.len() == 0 {
        s
    } else {
        replace_all(
            expand_all(table.drop_last(), s),
            macro_pattern(table.last().0),
            table.last().1,
        )
    }
}

/// The standard macros defined by the environment, in definition order.
pub open spec fn standard_macros(
    home: Option<Seq<char>>,
    user: Option<Seq<char>>,
    xdg_runtime_dir: Option<Seq<char>>,
    path: Option<Seq<char>>,
    xdg_config_home: Option<Seq<char>>,
) -> MacroTable {
    let home_part: MacroTable = match home {
        Some(h) => seq![
            ("HOME"@, h),
            ("DOWNLOADS"@, h + "/Downloads"@),
            ("DOCUMENTS"@, h + "/Documents"@),
            ("DESKTOP"@, h + "/Desktop"@),
            ("PICTURES"@, h + "/Pictures"@),
            ("MUSIC"@, h + "/Music"@),
            ("VIDEOS"@, h + "/Videos"@),
        ],
        None => seq![],
    };
    let user_part: MacroTable = match user {
        Some(u) => seq![
            ("USER"@, u),
            ("RUNUSER"@, match xdg_runtime_dir {
                Some(r) => r,
                None => "/run/user/"@ + u,
            }),
        ],
        None => seq![],
    };
    let path_part: MacroTable = match path {
        Some(p) => seq![("PATH"@, p)],
        None => seq![],
    };
    let cfg_part: MacroTable = match xdg_config_home {
        Some(c) => seq![("CFG"@, c)],
        None => match home {
            Some(h) => seq![("CFG"@, h + "/.config"@)],
            None => seq![],
        },
    };
    home_part + user_part + path_part + cfg_part
}

/// The view of an optional string.
pub open spec fn opt_view(o: Option<String>) -> Option<Seq<char>> {
    match o {
        Some(s) => Some(s@),
        None => None,
    }
}

/// Characterisation of `entry_index`.
pub proof fn lemma_entry_index(table: MacroTable, name: Seq<char>)
    ensures
        entry_index(table, name) matches Some(i) ==> 0 <= i < table.len() && table[i].0 == name
            && forall|j: int| 0 <= j < i ==> (#[trigger] table[j]).0 != name,
        entry_index(table, name) is None ==> forall|j: int|
            0 <= j < table.len() ==> (#[trigger] table[j]).0 != name,
    decreases table.len(),
{
    if table.len() > 0 && table[0].0 != name {
        lemma_entry_index(table.skip(1), name);
        assert forall|j: int| 1 <= j < table.len() implies table[j] == table.skip(1)[j - 1] by {}
    }
}

/// The first entry whose name is `name` is the one `entry_index` finds.
proof fn lemma_entry_index_unique(table: MacroTable, name: Seq<char>, i: int)
    requires
        0 <= i < table.len(),
        table[i].0 == name,
        forall|j: int| 0 <= j < i ==> (#[trigger] table[j]).0 != name,
    ensures
        entry_index(table, name) == Some(i),
{
    lemma_entry_index(table, name);
    match entry_index(table, name) {
        Some(k) => {
            if k < i {
                assert(table[k].0 != name);
            } else if k > i {
                assert(table[i].0 != name);
            }
        },
        None => {
            assert(table[i].0 != name);
        },
    }
}

/// Reading a macro after defining it gives the value defined, and defining a
/// macro leaves every other macro as it was.
pub proof fn law_define_then_lookup(
    table: MacroTable,
    name: Seq<char>,
    value: Seq<char>,
    other: Seq<char>,
)
    ensures
        lookup(define(table, name, value), name) == Some(value),
        other != name ==> lookup(define(table, name, value), other) == lookup(table, other),
{
    lemma_entry_index(table, name);
    lemma_entry_index(table, other);
    let t2 = define(table, name, value);
    lemma_entry_index(t2, other);
    match entry_index(table, name) {
        Some(i) => {
            assert forall|j: int| 0 <= j < i implies (#[trigger] t2[j]).0 != name by {
                assert(t2[j] == table[j]);
            }
            lemma_entry_index_unique(t2, name, i);
            if other != name {
                match entry_index(table, other) {
                    Some(k) => {
                        assert forall|j: int| 0 <= j < k implies (#[trigger] t2[j]).0 != other by {
                            if j != i {
                                assert(t2[j] == table[j]);
                            }
                        }
                        assert(k != i);
                        assert(t2[k] == table[k]);
                        lemma_entry_index_unique(t2, other, k);
                    },
                    None => {
                        assert forall|j: int| 0 <= j < t2.len() implies (#[trigger] t2[j]).0
                            != other by {
                            if j != i {
                                assert(t2[j] == table[j]);
                            }
                        }
                    },
                }
            }
        },
        None => {
            let n = table.len() as int;
            assert forall|j: int| 0 <= j < n implies (#[trigger] t2[j]).0 != name by {
                assert(t2[j] == table[j]);
            }
            lemma_entry_index_unique(t2, name, n);
            if other != name {
                match entry_index(table, other) {
                    Some(k) => {
                        assert forall|j: int| 0 <= j < k implies (#[trigger] t2[j]).0 != other by {
                            assert(t2[j] == table[j]);
                        }
                        assert(t2[k] == table[k]);
                        lemma_entry_index_unique(t2, other, k);
                    },
                    None => {
                        assert forall|j: int| 0 <= j < t2.len() implies (#[trigger] t2[j]).0
                            != other by {
                            if j < n {
                                assert(t2[j] == table[j]);
                            }
                        }
                    },
                }
            }
        },
    }
}

/// Defining a macro keeps the names distinct.
proof fn lemma_define_distinct(table: MacroTable, name: Seq<char>, value: Seq<char>)
    requires
        names_distinct(table),
    ensures
        names_distinct(define(table, name, value)),
{
    lemma_entry_index(table, name);
    let t2 = define(table, name, value);
    assert forall|i: int, j: int|
        0 <= i < t2.len() && 0 <= j < t2.len() && i != j implies #[trigger] t2[i].0
        != #[trigger] t2[j].0 by {
        match entry_index(table, name) {
            Some(k) => {
                if i == k {
                    assert(t2[j] == table[j]);
                    assert(table[k].0 != table[j].0);
                } else if j == k {
                    assert(t2[i] == table[i]);
                    assert(table[k].0 != table[i].0);
                } else {
                    assert(t2[i] == table[i]);
                    assert(t2[j] == table[j]);
                }
            },
            None => {
                if i < table.len() {
                    assert(t2[i] == table[i]);
                }
                if j < table.len() {
                    assert(t2[j] == table[j]);
                }
            },
        }
    }
}

/// Text that holds no `${name}` of any defined macro is left unchanged by
/// expansion; in particular unknown macros are not expanded.
pub proof fn law_expand_leaves_unknown_text(table: MacroTable, s: Seq<char>)
    requires
        forall|k: int, i: int|
            0 <= k < table.len() ==> !#[trigger] occurs_at(s, macro_pattern(table[k].0), i),
    ensures
        expand_all(table, s) == s,
    decreases table.len(),
{
    if table.len() > 0 {
        let init = table.drop_last();
        assert forall|k: int, i: int| 0 <= k < init.len() implies !#[trigger] occurs_at(
            s,
            macro_pattern(init[k].0),
            i,
        ) by {
            assert(init[k] == table[k]);
        }
        law_expand_leaves_unknown_text(init, s);
        let last = table[table.len() - 1];
        assert forall|i: int| !occurs_at(s, macro_pattern(last.0), i) by {
            assert(!occurs_at(s, macro_pattern(table[table.len() - 1].0), i));
        }
        lemma_replace_absent(s, macro_pattern(last.0), last.1);
    }
}

/// In a table with distinct names, each entry is what its name looks up.
proof fn lemma_lookup_at(table: MacroTable, k: int)
    requires
        names_distinct(table),
        0 <= k < table.len(),
    ensures
        lookup(table, table[k].0) == Some(table[k].1),
{
    assert forall|j: int| 0 <= j < k implies (#[trigger] table[j]).0 != table[k].0 by {}
    lemma_entry_index_unique(table, table[k].0, k);
}

/// What each standard macro stands for: `HOME` for the home directory and
/// each user folder macro for the folder of that name under it
/// (`DOWNLOADS` for `<home>/Downloads`, `DOCUMENTS` for `<home>/Documents`,
/// `DESKTOP`, `PICTURES`, `MUSIC`, `VIDEOS` likewise); `USER` for the user
/// and `RUNUSER` for `XDG_RUNTIME_DIR`, else `/run/user/<user>`; `PATH` for
/// the search path; and `CFG` for `XDG_CONFIG_HOME`, else `<home>/.config`,
/// else nothing. No other macro is defined, and none twice.
pub proof fn law_standard_macro_values(
    t: MacroTable,
    home: Option<Seq<char>>,
    user: Option<Seq<char>>,
    xdg_runtime_dir: Option<Seq<char>>,
    path: Option<Seq<char>>,
    xdg_config_home: Option<Seq<char>>,
)
    requires
        t == standard_macros(home, user, xdg_runtime_dir, path, xdg_config_home),
    ensures
        home matches Some(h) ==> {
            &&& lookup(t, "HOME"@) == Some(h)
            &&& lookup(t, "DOWNLOADS"@) == Some(h + "/Downloads"@)
            &&& lookup(t, "DOCUMENTS"@) == Some(h + "/Documents"@)
            &&& lookup(t, "DESKTOP"@) == Some(h + "/Desktop"@)
            &&& lookup(t, "PICTURES"@) == Some(h + "/Pictures"@)
            &&& lookup(t, "MUSIC"@) == Some(h + "/Music"@)
            &&& lookup(t, "VIDEOS"@) == Some(h + "/Videos"@)
        },
        user matches Some(u) ==> {
            &&& lookup(t, "USER"@) == Some(u)
            &&& lookup(t, "RUNUSER"@) == Some(
                match xdg_runtime_dir {
                    Some(r) => r,
                    None => "/run/user/"@ + u,
                },
            )
        },
        path matches Some(p) ==> lookup(t, "PATH"@) == Some(p),
        lookup(t, "CFG"@) == (match xdg_config_home {
            Some(c) => Some(c),
            None => match home {
                Some(h) => Some(h + "/.config"@),
                None => None,
            },
        }),
        names_distinct(t),
        t.len() == (if home is Some { 7int } else { 0int }) + (if user is Some {
            2int
        } else {
            0int
        }) + (if path is Some { 1int } else { 0int }) + (if xdg_config_home is Some
            || home is Some {
            1int
        } else {
            0int
        }),
{
    lemma_standard_macros_distinct(home, user, xdg_runtime_dir, path, xdg_config_home);
    let hl: int = if home is Some { 7 } else { 0 };
    let ul: int = if user is Some { 2 } else { 0 };
    let pl: int = if path is Some { 1 } else { 0 };
    if let Some(h) = home {
        lemma_lookup_at(t, 0);
        lemma_lookup_at(t, 1);
        lemma_lookup_at(t, 2);
        lemma_lookup_at(t, 3);
        lemma_lookup_at(t, 4);
        lemma_lookup_at(t, 5);
        lemma_lookup_at(t, 6);
    }
    if let Some(u) = user {
        lemma_lookup_at(t, hl);
        lemma_lookup_at(t, hl + 1);
    }
    if let Some(p) = path {
        lemma_lookup_at(t, hl + ul);
    }
    if xdg_config_home is Some || home is Some {
        lemma_lookup_at(t, hl + ul + pl);
    } else {
        reveal_strlit("CFG");
        reveal_strlit("USER");
        reveal_strlit("RUNUSER");
        reveal_strlit("PATH");
        assert(t.len() == ul + pl);
        lemma_entry_index(t, "CFG"@);
        assert forall|j: int| 0 <= j < t.len() implies (#[trigger] t[j]).0 != "CFG"@ by {
            assert(t[j].0.len() != 3);
        }
    }
}

/// Two tables without a common name concatenate to a table with distinct names.
proof fn lemma_distinct_concat(a: MacroTable, b: MacroTable)
    requires
        names_distinct(a),
        names_distinct(b),
        forall|i: int, j: int|
            0 <= i < a.len() && 0 <= j < b.len() ==> #[trigger] a[i].0 != #[trigger] b[j].0,
    ensures
        names_distinct(a + b),
{
    let t = a + b;
    assert forall|i: int, j: int|
        0 <= i < t.len() && 0 <= j < t.len() && i != j implies #[trigger] t[i].0
        != #[trigger] t[j].0 by {
        if i < a.len() && j < a.len() {
            assert(t[i] == a[i] && t[j] == a[j]);
        } else if i < a.len() {
            assert(t[i] == a[i] && t[j] == b[j - a.len()]);
        } else if j < a.len() {
            assert(t[j] == a[j] && t[i] == b[i - a.len()]);
        } else {
            assert(t[i] == b[i - a.len()] && t[j] == b[j - a.len()]);
        }
    }
}

/// The standard macros have distinct names.
proof fn lemma_standard_macros_distinct(
    home: Option<Seq<char>>,
    user: Option<Seq<char>>,
    xdg_runtime_dir: Option<Seq<char>>,
    path: Option<Seq<char>>,
    xdg_config_home: Option<Seq<char>>,
)
    ensures
        names_distinct(standard_macros(home, user, xdg_runtime_dir, path, xdg_config_home)),
{
    reveal_strlit("HOME");
    reveal_strlit("DOWNLOADS");
    reveal_strlit("DOCUMENTS");
    reveal_strlit("DESKTOP");
    reveal_strlit("PICTURES");
    reveal_strlit("MUSIC");
    reveal_strlit("VIDEOS");
    reveal_strlit("USER");
    reveal_strlit("RUNUSER");
    reveal_strlit("PATH");
    reveal_strlit("CFG");
    let full = standard_macros(home, user, xdg_runtime_dir, path, xdg_config_home);
    let home_part: MacroTable = match home {
        Some(h) => seq![
            ("HOME"@, h),
            ("DOWNLOADS"@, h + "/Downloads"@),
            ("DOCUMENTS"@, h + "/Documents"@),
            ("DESKTOP"@, h + "/Desktop"@),
            ("PICTURES"@, h + "/Pictures"@),
            ("MUSIC"@, h + "/Music"@),
            ("VIDEOS"@, h + "/Videos"@),
        ],
        None => seq![],
    };
    let user_part: MacroTable = match user {
        Some(u) => seq![
            ("USER"@, u),
            ("RUNUSER"@, match xdg_runtime_dir {
                Some(r) => r,
                None => "/run/user/"@ + u,
            }),
        ],
        None => seq![],
    };
    let path_part: MacroTable = match path {
        Some(p) => seq![("PATH"@, p)],
        None => seq![],
    };
    let cfg_part: MacroTable = match xdg_config_home {
        Some(c) => seq![("CFG"@, c)],
        None => match home {
            Some(h) => seq![("CFG"@, h + "/.config"@)],
            None => seq![],
        },
    };
    assert(names_distinct(home_part)) by {
        assert forall|i: int, j: int|
            0 <= i < home_part.len() && 0 <= j < home_part.len() && i != j implies #[trigger] home_part[i].0
            != #[trigger] home_part[j].0 by {
            if home_part[i].0 == home_part[j].0 {
                assert(home_part[i].0[0] == home_part[j].0[0]);
                assert(home_part[i].0[2] == home_part[j].0[2]);
            }
        }
    }
    assert(names_distinct(user_part)) by {
        assert forall|i: int, j: int|
            0 <= i < user_part.len() && 0 <= j < user_part.len() && i != j implies #[trigger] user_part[i].0
            != #[trigger] user_part[j].0 by {
            if user_part[i].0 == user_part[j].0 {
                assert(user_part[i].0[0] == user_part[j].0[0]);
            }
        }
    }
    assert forall|i: int, j: int|
        0 <= i < home_part.len() && 0 <= j < user_part.len() implies #[trigger] home_part[i].0
        != #[trigger] user_part[j].0 by {
        if home_part[i].0 == user_part[j].0 {
            assert(home_part[i].0[0] == user_part[j].0[0]);
        }
    }
    lemma_distinct_concat(home_part, user_part);
    let hu = home_part + user_part;
    assert forall|i: int, j: int|
        0 <= i < hu.len() && 0 <= j < path_part.len() implies #[trigger] hu[i].0
        != #[trigger] path_part[j].0 by {
        if hu[i].0 == path_part[j].0 {
            assert(hu[i].0[0] == path_part[j].0[0]);
            assert(hu[i].0[1] == path_part[j].0[1]);
            if i < home_part.len() {
                assert(hu[i] == home_part[i]);
            } else {
                assert(hu[i] == user_part[i - home_part.len()]);
            }
        }
    }
    lemma_distinct_concat(hu, path_part);
    let hup = hu + path_part;
    assert forall|i: int, j: int|
        0 <= i < hup.len() && 0 <= j < cfg_part.len() implies #[trigger] hup[i].0
        != #[trigger] cfg_part[j].0 by {
        if hup[i].0 == cfg_part[j].0 {
            assert(hup[i].0[0] == cfg_part[j].0[0]);
            if i < hu.len() {
                assert(hup[i] == hu[i]);
                if i < home_part.len() {
                    assert(hu[i] == home_part[i]);
                } else {
                    assert(hu[i] == user_part[i - home_part.len()]);
                }
            } else {
                assert(hup[i] == path_part[i - hu.len()]);
            }
        }
    }
    lemma_distinct_concat(hup, cfg_part);
    assert(full == hup + cfg_part);
}

impl MacroExpander {
    /// No macro name occurs twice.
    #[verifier::type_invariant]
    spec fn keys_distinct(self) -> bool {
        names_distinct(self.table())
    }

    /// The macro table, in definition order.
    pub closed spec fn table(self) -> MacroTable {
        self.vars@.map_values(|e: (String, String)| (e.0@, e.1@))
    }

    /// Create a macro expander with the standard macros defined by the given
    /// environment: `HOME` with the user folders under it, `USER` with
    /// `RUNUSER` (from `XDG_RUNTIME_DIR`, else `/run/user/<user>`), `PATH`, and
    /// `CFG` (from `XDG_CONFIG_HOME`, else `<home>/.config`).
    pub fn new(env: MacroEnvironment) -> (m: Self)
        ensures
            m.table() == standard_macros(
                opt_view(env.home),
                opt_view(env.user),
                opt_view(env.xdg_runtime_dir),
                opt_view(env.path),
                opt_view(env.xdg_config_home),
            ),
    {
        let ghost spec_table = standard_macros(
            opt_view(env.home),
            opt_view(env.user),
            opt_view(env.xdg_runtime_dir),
            opt_view(env.path),
            opt_view(env.xdg_config_home),
        );
        let mut vars: Vec<(String, String)> = Vec::new();
        if let Some(home) = &env.home {
            let h = chars_of_string(home);
            vars.push((own("HOME"), home.clone()));
            vars.push((own("DOWNLOADS"), string_of(&concat(&h, &chars_of("/Downloads")))));
            vars.push((own("DOCUMENTS"), string_of(&concat(&h, &chars_of("/Documents")))));
            vars.push((own("DESKTOP"), string_of(&concat(&h, &chars_of("/Desktop")))));
            vars.push((own("PICTURES"), string_of(&concat(&h, &chars_of("/Pictures")))));
            vars.push((own("MUSIC"), string_of(&concat(&h, &chars_of("/Music")))));
            vars.push((own("VIDEOS"), string_of(&concat(&h, &chars_of("/Videos")))));
        }
        if let Some(user) = &env.user {
            vars.push((own("USER"), user.clone()));
            let runuser = match &env.xdg_runtime_dir {
                Some(r) => r.clone(),
                None => string_of(&concat(&chars_of("/run/user/"), &chars_of_string(user))),
            };
            vars.push((own("RUNUSER"), runuser));
        }
        if let Some(path) = &env.path {
            vars.push((own("PATH"), path.clone()));
        }
        match &env.xdg_config_home {
            Some(c) => {
                vars.push((own("CFG"), c.clone()));
            },
            None => {
                if let Some(home) = &env.home {
                    vars.push(
                        (own("CFG"), string_of(&concat(&chars_of_string(home), &chars_of("/.config")))),
                    );
                }
            },
        }
        proof {
            assert(vars@.map_values(|e: (String, String)| (e.0@, e.1@)) =~= spec_table);
            lemma_standard_macros_distinct(
                opt_view(env.home),
                opt_view(env.user),
                opt_view(env.xdg_runtime_dir),
                opt_view(env.path),
                opt_view(env.xdg_config_home),
            );
        }
        MacroExpander { vars }
    }

    /// Create an expander with no macros.
    pub(crate) fn empty() -> (m: Self)
        ensures
            m.table() == Seq::<(Seq<char>, Seq<char>)>::empty(),
    {
        let m = MacroExpander { vars: Vec::new() };
        assert(m.table() =~= Seq::<(Seq<char>, Seq<char>)>::empty());
        m
    }

    /// The macro definitions, in definition order.
    pub fn vars(&self) -> (v: &Vec<(String, String)>)
        ensures
            v@.map_values(|e: (String, String)| (e.0@, e.1@)) == self.table(),
    {
        &self.vars
    }

    /// Expand all macros in a string: replaces `${MACRO}` with the
    /// corresponding value, macro by macro in definition order.
    pub fn expand(&self, input: &str) -> (r: String)
        ensures
            r@ == expand_all(self.table(), input@),
    {
        let ghost t = self.table();
        let mut result = chars_of(input);
        let mut i: usize = 0;
        while i < self.vars.len()
            invariant
                i <= self.vars.len(),
                t == self.table(),
                t.len() == self.vars.len(),
                result@ == expand_all(t.take(i as int), input@),
            decreases self.vars.len() - i,
        {
            let pat = concat(
                &concat(&chars_of("${"), &chars_of_string(&self.vars[i].0)),
                &chars_of("}"),
            );
            proof {
                reveal_strlit("${");
                assert(t.take(i + 1).drop_last() =~= t.take(i as int));
                assert(t[i as int] == (self.vars@[i as int].0@, self.vars@[i as int].1@));
            }
            result = replace(&result, &pat, &chars_of_string(&self.vars[i].1));
            i += 1;
        }
        assert(t.take(self.vars.len() as int) =~= t);
        string_of(&result)
    }

    /// Index of the definition of `key`, if any.
    fn index_of(&self, key: &Vec<char>) -> (r: Option<usize>)
        ensures
            r matches Some(i) ==> entry_index(self.table(), key@) == Some(i as int),
            r is None ==> entry_index(self.table(), key@) is None,
    {
        proof {
            lemma_entry_index(self.table(), key@);
        }
        let mut i: usize = 0;
        while i < self.vars.len()
            invariant
                i <= self.vars.len(),
                self.table().len() == self.vars.len(),
                forall|j: int| 0 <= j < i ==> (#[trigger] self.table()[j]).0 != key@,
            decreases self.vars.len() - i,
        {
            proof {
                assert(self.table()[i as int].0 == self.vars@[i as int].0@);
            }
            if vec_eq(&chars_of_string(&self.vars[i].0), key) {
                proof {
                    lemma_entry_index_unique(self.table(), key@, i as int);
                }
                return Some(i);
            }
            i += 1;
        }
        None
    }

    /// Add or override a macro definition.
    pub fn set_macro(&mut self, key: String, value: String)
        ensures
            final(self).table() == define(old(self).table(), key@, value@),
    {
        proof {
            use_type_invariant(&*self);
            lemma_define_distinct(self.table(), key@, value@);
        }
        let ghost t = self.table();
        let idx = self.index_of(&chars_of_string(&key));
        proof {
            lemma_entry_index(t, key@);
        }
        let mut vars: Vec<(String, String)> = Vec::new();
        std::mem::swap(&mut vars, &mut self.vars);
        match idx {
            Some(i) => {
                vars.set(i, (key, value));
            },
            None => {
                vars.push((key, value));
            },
        }
        assert(vars@.map_values(|e: (String, String)| (e.0@, e.1@)) =~= define(t, key@, value@));
        self.vars = vars;
    }

    /// Get the value of a macro if it exists.
    pub fn get_macro(&self, key: &str) -> (r: Option<&String>)
        ensures
            r matches Some(v) ==> lookup(self.table(), key@) == Some(v@),
            r is None ==> lookup(self.table(), key@) is None,
    {
        match self.index_of(&chars_of(key)) {
            Some(i) => {
                proof {
                    lemma_entry_index(self.table(), key@);
                    assert(self.table()[i as int].1 == self.vars@[i as int].1@);
                }
                Some(&self.vars[i].1)
            },
            None => None,
        }
    }
}

} // verus!
