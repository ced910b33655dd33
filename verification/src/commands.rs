//! The TUI command registry: typed argument templates and the mapping
//! from command text to actions.

use vstd::prelude::*;
use vstd::string::StringExecFns;

use crate::parse::{
    dec_val, parse_bool, parse_i16, parse_i64, parse_u64, parse_usize, signed_val, str_eq,
    unsigned_body, valid_signed, valid_unsigned,
};
use crate::signals::TuiState;
use crate::strutil::{joined, split_char};

verus! {

/// A typed command or option argument: the template carries `None`, a
/// parsed argument carries the value.
#[derive(Debug, Clone)]
pub enum Arg {
    TuiState(Option<TuiState>),
    USIZE(Option<usize>),
    BOOL(Option<bool>),
    I64(Option<i64>),
    I16(Option<i16>),
    U64(Option<u64>),
}

impl Arg {
    pub fn extract_tui_state(self) -> (r: Option<TuiState>)
        ensures
            r == (if self is TuiState {
                self->TuiState_0
            } else {
                Option::<TuiState>::None
            }),
    {
        match self {
            Arg::TuiState(tui_state) => tui_state,
            _ => None,
        }
    }

    pub fn extract_bool(self) -> (r: Option<bool>)
        ensures
            r == (if self is BOOL {
                self->BOOL_0
            } else {
                Option::<bool>::None
            }),
    {
        match self {
            Arg::BOOL(b) => b,
            _ => None,
        }
    }

    pub fn extract_usize(self) -> (r: Option<usize>)
        ensures
            r == (if self is USIZE {
                self->USIZE_0
            } else {
                Option::<usize>::None
            }),
    {
        match self {
            Arg::USIZE(u) => u,
            _ => None,
        }
    }

    pub fn extract_i16(self) -> (r: Option<i16>)
        ensures
            r == (if self is I16 {
                self->I16_0
            } else {
                Option::<i16>::None
            }),
    {
        match self {
            Arg::I16(v) => v,
            _ => None,
        }
    }

    pub fn extract_i64(self) -> (r: Option<i64>)
        ensures
            r == (if self is I64 {
                self->I64_0
            } else {
                Option::<i64>::None
            }),
    {
        match self {
            Arg::I64(v) => v,
            _ => None,
        }
    }

    pub fn extract_u64(self) -> (r: Option<u64>)
        ensures
            r == (if self is U64 {
                self->U64_0
            } else {
                Option::<u64>::None
            }),
    {
        match self {
            Arg::U64(v) => v,
            _ => None,
        }
    }

    /// The template's type name, as the help text shows it.
    pub fn to_type_str(&self) -> (r: &'static str)
        ensures
            *self is TuiState ==> r@ == "TuiState"@,
            *self is USIZE ==> r@ == "usize"@,
            *self is BOOL ==> r@ == "bool"@,
            *self is I16 ==> r@ == "i16"@,
            *self is I64 ==> r@ == "i64"@,
            *self is U64 ==> r@ == "u64"@,
    {
        match self {
            Arg::TuiState(_) => "TuiState",
            Arg::USIZE(_) => "usize",
            Arg::BOOL(_) => "bool",
            Arg::I16(_) => "i16",
            Arg::I64(_) => "i64",
            Arg::U64(_) => "u64",
        }
    }
}

/// The TUI state a command argument names; commands know all three
/// screens.
pub open spec fn tui_state_of(s: Seq<char>) -> Option<TuiState> {
    if s == "player"@ {
        Some(TuiState::Player)
    } else if s == "history"@ {
        Some(TuiState::History)
    } else if s == "help"@ {
        Some(TuiState::Help)
    } else {
        None
    }
}

/// One argument, parsed against its template. A `TuiState` template never
/// fails here: an unknown name becomes an empty value, rejected later at
/// extraction, as the registry's mapper does it.
pub open spec fn parse_arg_spec(template: Arg, s: Seq<char>) -> Option<Arg> {
    match template {
        Arg::TuiState(_) => Some(Arg::TuiState(tui_state_of(s))),
        Arg::USIZE(_) => if valid_unsigned(s) && dec_val(unsigned_body(s)) <= usize::MAX {
            Some(Arg::USIZE(Some(dec_val(unsigned_body(s)) as usize)))
        } else {
            None
        },
        Arg::BOOL(_) => if s == "true"@ {
            Some(Arg::BOOL(Some(true)))
        } else if s == "false"@ {
            Some(Arg::BOOL(Some(false)))
        } else {
            None
        },
        Arg::I64(_) => if valid_signed(s) && i64::MIN <= signed_val(s) <= i64::MAX {
            Some(Arg::I64(Some(signed_val(s) as i64)))
        } else {
            None
        },
        Arg::I16(_) => if valid_signed(s) && i16::MIN <= signed_val(s) <= i16::MAX {
            Some(Arg::I16(Some(signed_val(s) as i16)))
        } else {
            None
        },
        Arg::U64(_) => if valid_unsigned(s) && dec_val(unsigned_body(s)) <= u64::MAX {
            Some(Arg::U64(Some(dec_val(unsigned_body(s)) as u64)))
        } else {
            None
        },
    }
}

/// Parses one argument against its template.
pub fn parse_arg(template: &Arg, s: &str) -> (r: Option<Arg>)
    ensures
        r == parse_arg_spec(*template, s@),
{
    match template {
        Arg::TuiState(_) => {
            if str_eq(s, "player") {
                Some(Arg::TuiState(Some(TuiState::Player)))
            } else if str_eq(s, "history") {
                Some(Arg::TuiState(Some(TuiState::History)))
            } else if str_eq(s, "help") {
                Some(Arg::TuiState(Some(TuiState::Help)))
            } else {
                Some(Arg::TuiState(None))
            }
        },
        Arg::USIZE(_) => match parse_usize(s) {
            Some(v) => Some(Arg::USIZE(Some(v))),
            None => None,
        },
        Arg::BOOL(_) => match parse_bool(s) {
            Some(v) => Some(Arg::BOOL(Some(v))),
            None => None,
        },
        Arg::I64(_) => match parse_i64(s) {
            Some(v) => Some(Arg::I64(Some(v))),
            None => None,
        },
        Arg::I16(_) => match parse_i16(s) {
            Some(v) => Some(Arg::I16(Some(v))),
            None => None,
        },
        Arg::U64(_) => match parse_u64(s) {
            Some(v) => Some(Arg::U64(Some(v))),
            None => None,
        },
    }
}

/// All arguments parsed against their templates, in order; any failure
/// fails the whole list.
pub open spec fn parsed_args_spec(templates: Seq<Arg>, args: Seq<Seq<char>>) -> Option<Seq<Arg>>
    recommends
        templates.len() == args.len(),
    decreases templates.len(),
{
    if templates.len() == 0 {
        Some(Seq::empty())
    } else {
        match parse_arg_spec(templates[0], args[0]) {
            Some(a) => match parsed_args_spec(templates.drop_first(), args.drop_first()) {
                Some(rest) => Some(seq![a] + rest),
                None => None,
            },
            None => None,
        }
    }
}

/// One more parsed argument extends the parsed list; one more failing
/// argument fails it.
pub proof fn lemma_parsed_args_take(templates: Seq<Arg>, args: Seq<Seq<char>>, k: int)
    requires
        templates.len() == args.len(),
        0 <= k < templates.len(),
    ensures
        parse_arg_spec(templates[k], args[k]) is Some ==> {
            &&& (parsed_args_spec(templates.take(k), args.take(k)) is Some ==> parsed_args_spec(
                templates.take(k + 1),
                args.take(k + 1),
            ) == Some(
                parsed_args_spec(templates.take(k), args.take(k))->0.push(
                    parse_arg_spec(templates[k], args[k])->0,
                ),
            ))
            &&& (parsed_args_spec(templates.take(k), args.take(k)) is None ==> parsed_args_spec(
                templates.take(k + 1),
                args.take(k + 1),
            ) is None)
        },
        parse_arg_spec(templates[k], args[k]) is None ==> parsed_args_spec(
            templates.take(k + 1),
            args.take(k + 1),
        ) is None,
    decreases k,
{
    if k == 0 {
        assert(templates.take(0) =~= Seq::<Arg>::empty());
        assert(templates.take(1)[0] == templates[0]);
        assert(args.take(1)[0] == args[0]);
        assert(templates.take(1).drop_first() =~= Seq::<Arg>::empty());
        assert(args.take(1).drop_first() =~= Seq::<Seq<char>>::empty());
        if parse_arg_spec(templates[0], args[0]) is Some {
            let a = parse_arg_spec(templates[0], args[0])->0;
            assert(parsed_args_spec(Seq::<Arg>::empty(), Seq::<Seq<char>>::empty()) == Some(
                Seq::<Arg>::empty(),
            ));
            assert(parsed_args_spec(templates.take(1), args.take(1)) == Some(
                seq![a] + Seq::<Arg>::empty(),
            ));
            assert(seq![a] + Seq::<Arg>::empty() =~= Seq::<Arg>::empty().push(a));
        }
    } else {
        lemma_parsed_args_take(templates.drop_first(), args.drop_first(), k - 1);
        assert(templates.take(k).drop_first() =~= templates.drop_first().take(k - 1));
        assert(args.take(k).drop_first() =~= args.drop_first().take(k - 1));
        assert(templates.take(k + 1).drop_first() =~= templates.drop_first().take(k));
        assert(args.take(k + 1).drop_first() =~= args.drop_first().take(k));
        assert(templates.take(k)[0] == templates[0]);
        assert(templates.take(k + 1)[0] == templates[0]);
        assert(args.take(k)[0] == args[0]);
        assert(args.take(k + 1)[0] == args[0]);
        assert(templates.drop_first()[k - 1] == templates[k]);
        assert(args.drop_first()[k - 1] == args[k]);
        if parse_arg_spec(templates[0], args[0]) is Some {
            let a0 = parse_arg_spec(templates[0], args[0])->0;
            if parse_arg_spec(templates[k], args[k]) is Some {
                let a = parse_arg_spec(templates[k], args[k])->0;
                if parsed_args_spec(templates.take(k), args.take(k)) is Some {
                    let p = parsed_args_spec(templates.take(k), args.take(k))->0;
                    let p1 = parsed_args_spec(
                        templates.drop_first().take(k - 1),
                        args.drop_first().take(k - 1),
                    );
                    assert(p1 is Some && p == seq![a0] + p1->0);
                    let pr = p1->0;
                    assert(parsed_args_spec(
                        templates.drop_first().take(k),
                        args.drop_first().take(k),
                    ) == Some(pr.push(a)));
                    assert(seq![a0] + pr.push(a) =~= (seq![a0] + pr).push(a));
                }
            }
        }
    }
}

/// Parses every argument against its template, as the registry's mapper
/// does before building an action.
pub fn parse_args_list(templates: &Vec<Arg>, args: &Vec<String>) -> (r: Option<Vec<Arg>>)
    requires
        templates@.len() == args@.len(),
    ensures
        match r {
            Some(parsed) => parsed_args_spec(templates@, args@.map_values(|s: String| s@))
                == Some(parsed@),
            None => parsed_args_spec(templates@, args@.map_values(|s: String| s@)) is None,
        },
{
    let ghost argviews = args@.map_values(|s: String| s@);
    let mut parsed: Vec<Arg> = Vec::new();
    let mut k: usize = 0;
    while k < templates.len()
        invariant
            templates@.len() == args@.len(),
            argviews == args@.map_values(|s: String| s@),
            k <= templates@.len(),
            parsed_args_spec(templates@.take(k as int), argviews.take(k as int)) == Some(parsed@),
        decreases templates@.len() - k,
    {
        match parse_arg(&templates[k], args[k].as_str()) {
            Some(a) => {
                proof {
                    lemma_parsed_args_take(templates@, argviews, k as int);
                }
                parsed.push(a);
            },
            None => {
                proof {
                    lemma_parsed_args_take(templates@, argviews, k as int);
                    lemma_parsed_args_none(templates@, argviews, k + 1);
                }
                return None;
            },
        }
        k += 1;
    }
    proof {
        assert(templates@.take(templates@.len() as int) =~= templates@);
        assert(argviews.take(templates@.len() as int) =~= argviews);
    }
    Some(parsed)
}

/// A failing prefix fails the whole list.
pub proof fn lemma_parsed_args_none(templates: Seq<Arg>, args: Seq<Seq<char>>, k: int)
    requires
        templates.len() == args.len(),
        0 <= k <= templates.len(),
        parsed_args_spec(templates.take(k), args.take(k)) is None,
    ensures
        parsed_args_spec(templates, args) is None,
    decreases templates.len() - k,
{
    if k < templates.len() {
        lemma_parsed_args_take(templates, args, k);
        lemma_parsed_args_none(templates, args, k + 1);
    } else {
        assert(templates.take(k) =~= templates);
        assert(args.take(k) =~= args);
    }
}

/// The kinds of commands the TUI understands.
#[derive(Debug, Clone)]
pub enum CommandType {
    EnterCommandMode,
    View,
    Quit,
    PlayerPauseResume,
    PlayerNext,
    PlayerPrev,
    Vol,
    Scroll,
}

/// A command with its arguments filled in.
#[derive(Debug)]
pub enum Action {
    EnterCommandMode,
    View(TuiState),
    Quit,
    PlayerPauseResume,
    PlayerNext,
    PlayerPrev,
    Vol(i64),
    Scroll(i16),
}

/// The action a command type builds from its parsed arguments; argument
/// consuming commands take the last parsed argument, and reject an empty
/// or ill-typed one.
pub open spec fn action_from_spec(ct: CommandType, parsed: Seq<Arg>) -> Option<Action> {
    match ct {
        CommandType::EnterCommandMode => Some(Action::EnterCommandMode),
        CommandType::Quit => Some(Action::Quit),
        CommandType::PlayerPauseResume => Some(Action::PlayerPauseResume),
        CommandType::PlayerNext => Some(Action::PlayerNext),
        CommandType::PlayerPrev => Some(Action::PlayerPrev),
        CommandType::View => if parsed.len() >= 1 && parsed.last() is TuiState
            && parsed.last()->TuiState_0 is Some {
            Some(Action::View(parsed.last()->TuiState_0->0))
        } else {
            None
        },
        CommandType::Vol => if parsed.len() >= 1 && parsed.last() is I64
            && parsed.last()->I64_0 is Some {
            Some(Action::Vol(parsed.last()->I64_0->0))
        } else {
            None
        },
        CommandType::Scroll => if parsed.len() >= 1 && parsed.last() is I16
            && parsed.last()->I16_0 is Some {
            Some(Action::Scroll(parsed.last()->I16_0->0))
        } else {
            None
        },
    }
}

/// Builds the action of a command type from its parsed arguments.
pub fn action_from(ct: &CommandType, parsed: Vec<Arg>) -> (r: Option<Action>)
    ensures
        r == action_from_spec(*ct, parsed@),
{
    let mut parsed = parsed;
    match ct {
        CommandType::EnterCommandMode => Some(Action::EnterCommandMode),
        CommandType::Quit => Some(Action::Quit),
        CommandType::PlayerPauseResume => Some(Action::PlayerPauseResume),
        CommandType::PlayerNext => Some(Action::PlayerNext),
        CommandType::PlayerPrev => Some(Action::PlayerPrev),
        CommandType::View => match parsed.pop() {
            Some(a) => match a.extract_tui_state() {
                Some(t) => Some(Action::View(t)),
                None => None,
            },
            None => None,
        },
        CommandType::Vol => match parsed.pop() {
            Some(a) => match a.extract_i64() {
                Some(v) => Some(Action::Vol(v)),
                None => None,
            },
            None => None,
        },
        CommandType::Scroll => match parsed.pop() {
            Some(a) => match a.extract_i16() {
                Some(v) => Some(Action::Scroll(v)),
                None => None,
            },
            None => None,
        },
    }
}

/// A command as registered: its name, its kind, its argument templates,
/// and whether the help text shows it.
pub struct CommandDefinition {
    pub name: String,
    pub action_type: CommandType,
    pub args: Vec<Arg>,
    pub user_facing: bool,
}

/// A registry entry: everything of the definition but the name, which
/// keys it.
pub struct CommandEntry {
    pub action: CommandType,
    pub args: Vec<Arg>,
    pub user_facing: bool,
}

/// The named commands, keyed by name; a name registered again replaces
/// its entry.
pub struct CommandsRegistry {
    pub commands: Vec<(String, CommandEntry)>,
}

/// The key occurs in the table.
pub open spec fn table_has_key<V>(t: Seq<(String, V)>, name: Seq<char>) -> bool {
    exists|i: int| 0 <= i < t.len() && (#[trigger] t[i]).0@ == name
}

/// The position of the key in the table. Meaningful when the key occurs
/// and keys are unique.
pub open spec fn table_key_index<V>(t: Seq<(String, V)>, name: Seq<char>) -> int {
    choose|i: int| 0 <= i < t.len() && (#[trigger] t[i]).0@ == name
}

/// No two entries share a name.
pub open spec fn table_unique_keys<V>(t: Seq<(String, V)>) -> bool {
    forall|i: int, j: int| 0 <= i < j < t.len() ==> (#[trigger] t[i]).0@ != (#[trigger] t[j]).0@
}

/// Looks a key up in an association table.
pub fn table_get<'a, V>(t: &'a Vec<(String, V)>, name: &str) -> (r: Option<&'a V>)
    requires
        table_unique_keys(t@),
    ensures
        match r {
            Some(v) => table_has_key(t@, name@) && *v == t@[table_key_index(t@, name@)].1,
            None => !table_has_key(t@, name@),
        },
{
    let mut i: usize = 0;
    while i < t.len()
        invariant
            table_unique_keys(t@),
            i <= t@.len(),
            forall|j: int| 0 <= j < i ==> (#[trigger] t@[j]).0@ != name@,
        decreases t@.len() - i,
    {
        if str_eq(t[i].0.as_str(), name) {
            proof {
                lemma_table_unique_at(t@, name@, i as int);
            }
            return Some(&t[i].1);
        }
        i += 1;
    }
    None
}

/// Inserts a keyed value, replacing any entry of the same key; every
/// other entry keeps its place and value.
#[verifier::loop_isolation(false)]
pub fn table_put<V>(t: &mut Vec<(String, V)>, name: String, v: V)
    requires
        table_unique_keys(old(t)@),
    ensures
        table_unique_keys(final(t)@),
        table_has_key(final(t)@, name@),
        final(t)@[table_key_index(final(t)@, name@)].1 == v,
        forall|n: Seq<char>|
            n != name@ ==> (table_has_key(final(t)@, n) == table_has_key(old(t)@, n)),
        forall|n: Seq<char>|
            n != name@ && table_has_key(old(t)@, n) ==> final(t)@[table_key_index(final(t)@, n)].1
                == old(t)@[table_key_index(old(t)@, n)].1,
        table_has_key(old(t)@, name@) ==> final(t)@.len() == old(t)@.len(),
        !table_has_key(old(t)@, name@) ==> final(t)@.len() == old(t)@.len() + 1,
{
    let ghost name_view = name@;
    let mut i: usize = 0;
    while i < t.len()
        invariant
            t@ == old(t)@,
            forall|j: int| 0 <= j < i ==> (#[trigger] t@[j]).0@ != name_view,
        decreases t@.len() - i,
    {
        if str_eq(t[i].0.as_str(), name.as_str()) {
            let ghost before = t@;
            let slot = &mut t[i];
            *slot = (name, v);
            proof {
                let tt = t@;
                assert(tt[i as int].0@ == name_view);
                assert(before[i as int].0@ == name_view);
                assert forall|a: int, b: int| 0 <= a < b < tt.len() implies (#[trigger] tt[a]).0@
                    != (#[trigger] tt[b]).0@ by {
                    assert(before[a].0@ != before[b].0@);
                    if a != i {
                        assert(tt[a] == before[a]);
                    }
                    if b != i {
                        assert(tt[b] == before[b]);
                    }
                }
                lemma_table_unique_at(tt, name_view, i as int);
                assert forall|n: Seq<char>|
                    n != name_view implies (table_has_key(tt, n) == table_has_key(before, n)) by {
                    if table_has_key(tt, n) {
                        let w = table_key_index(tt, n);
                        assert(0 <= w < tt.len() && tt[w].0@ == n);
                        assert(w != i);
                        assert(before[w].0@ == n);
                    }
                    if table_has_key(before, n) {
                        let w = table_key_index(before, n);
                        assert(0 <= w < before.len() && before[w].0@ == n);
                        assert(w != i);
                        assert(tt[w].0@ == n);
                    }
                }
                assert forall|n: Seq<char>|
                    n != name_view && table_has_key(before, n) implies tt[table_key_index(tt, n)].1
                        == before[table_key_index(before, n)].1 by {
                    let w = table_key_index(before, n);
                    assert(0 <= w < before.len() && before[w].0@ == n);
                    assert(w != i);
                    assert(tt[w].0@ == n);
                    lemma_table_unique_at(tt, n, w);
                }
            }
            return ;
        }
        i += 1;
    }
    let ghost before = t@;
    t.push((name, v));
    proof {
        let tt = t@;
        assert(tt[tt.len() - 1].0@ == name_view);
        assert forall|a: int, b: int| 0 <= a < b < tt.len() implies (#[trigger] tt[a]).0@ != (
        #[trigger] tt[b]).0@ by {
            if b < tt.len() - 1 {
                assert(before[a] == tt[a]);
                assert(before[b] == tt[b]);
            } else {
                assert(tt[a] == before[a]);
            }
        }
        lemma_table_unique_at(tt, name_view, tt.len() - 1);
        assert forall|n: Seq<char>|
            n != name_view implies (table_has_key(tt, n) == table_has_key(before, n)) by {
            if table_has_key(tt, n) {
                let w = table_key_index(tt, n);
                assert(0 <= w < tt.len() && tt[w].0@ == n);
                assert(w != tt.len() - 1);
                assert(before[w].0@ == n);
            }
            if table_has_key(before, n) {
                let w = table_key_index(before, n);
                assert(tt[w].0@ == n);
            }
        }
        assert forall|n: Seq<char>|
            n != name_view && table_has_key(before, n) implies tt[table_key_index(tt, n)].1
                == before[table_key_index(before, n)].1 by {
            let w = table_key_index(before, n);
            assert(0 <= w < before.len() && before[w].0@ == n);
            assert(tt[w].0@ == n);
            lemma_table_unique_at(tt, n, w);
        }
    }
}

impl CommandsRegistry {
    /// Keys are unique.
    pub open spec fn wf(self) -> bool {
        table_unique_keys(self.commands@)
    }

    pub fn new() -> (r: Self)
        ensures
            r.wf(),
            r.commands@.len() == 0,
    {
        CommandsRegistry { commands: Vec::new() }
    }

    /// Registers a command, replacing any entry of the same name; every
    /// other command keeps its entry.
    pub fn add_command(&mut self, command: CommandDefinition)
        requires
            old(self).wf(),
        ensures
            final(self).wf(),
            table_has_key(final(self).commands@, command.name@),
            final(self).commands@[table_key_index(final(self).commands@, command.name@)].1.action
                == command.action_type,
            final(self).commands@[table_key_index(final(self).commands@, command.name@)].1.args
                == command.args,
            final(self).commands@[table_key_index(final(self).commands@, command.name@)
            ].1.user_facing == command.user_facing,
            forall|n: Seq<char>|
                n != command.name@ ==> (table_has_key(final(self).commands@, n) == table_has_key(
                    old(self).commands@,
                    n,
                )),
            forall|n: Seq<char>|
                n != command.name@ && table_has_key(old(self).commands@, n)
                    ==> final(self).commands@[table_key_index(final(self).commands@, n)].1
                    == old(self).commands@[table_key_index(old(self).commands@, n)].1,
    {
        let entry = CommandEntry {
            action: command.action_type,
            args: command.args,
            user_facing: command.user_facing,
        };
        table_put(&mut self.commands, command.name, entry);
    }

    /// Registers several commands.
    pub fn add_commands(&mut self, commands: Vec<CommandDefinition>)
        requires
            old(self).wf(),
        ensures
            final(self).wf(),
    {
        let mut commands = commands;
        let mut i: usize = 0;
        while i < commands.len()
            invariant
                self.wf(),
                i <= commands@.len(),
            decreases commands@.len() - i,
        {
            let def = commands.remove(i);
            let _ = i;
            self.add_command(def);
        }
    }

    /// Maps a command name with already-split arguments to its action:
    /// the name must be registered, the argument count must match the
    /// templates, every argument must parse, and the command type must
    /// accept what was parsed.
    pub fn map_command_to_action(&self, command: &str, args: Vec<String>) -> (r: Option<Action>)
        requires
            self.wf(),
        ensures
            r == (if table_has_key(self.commands@, command@) {
                let entry = self.commands@[table_key_index(self.commands@, command@)].1;
                if entry.args@.len() != args@.len() {
                    Option::<Action>::None
                } else {
                    match parsed_args_spec(entry.args@, args@.map_values(|s: String| s@)) {
                        Some(parsed) => action_from_spec(entry.action, parsed),
                        None => Option::<Action>::None,
                    }
                }
            } else {
                Option::<Action>::None
            }),
    {
        let entry = match table_get(&self.commands, command) {
            Some(e) => e,
            None => {
                return None;
            },
        };
        if entry.args.len() != args.len() {
            return None;
        }
        match parse_args_list(&entry.args, &args) {
            Some(parsed) => action_from(&entry.action, parsed),
            None => None,
        }
    }

    /// Splits command text on spaces into a name and its arguments, and
    /// maps them to an action.
    pub fn map_command_str_to_action(&self, command: &str) -> (r: Option<Action>)
        requires
            self.wf(),
        ensures
            exists|parts: Seq<Seq<char>>|
                {
                    &&& parts.len() >= 1
                    &&& joined(parts, ' ') == command@
                    &&& (forall|k: int| 0 <= k < parts.len() ==> !(#[trigger] parts[k]).contains(' '))
                    &&& r == (if table_has_key(self.commands@, parts[0]) {
                        let entry = self.commands@[table_key_index(self.commands@, parts[0])].1;
                        if entry.args@.len() != parts.len() - 1 {
                            Option::<Action>::None
                        } else {
                            match parsed_args_spec(entry.args@, parts.drop_first()) {
                                Some(parsed) => action_from_spec(entry.action, parsed),
                                None => Option::<Action>::None,
                            }
                        }
                    } else {
                        Option::<Action>::None
                    })
                },
    {
        let mut parts = split_char(command, ' ');
        let ghost partviews = parts@.map_values(|s: String| s@);
        let name = parts.remove(0);
        let r = self.map_command_to_action(name.as_str(), parts);
        proof {
            assert(parts@.map_values(|s: String| s@) =~= partviews.drop_first());
            assert(partviews[0] == name@);
            assert forall|k: int| 0 <= k < partviews.len() implies !(
            #[trigger] partviews[k]).contains(' ') by {
                assert(partviews[k] == parts_old_at(partviews, k));
            }
        }
        r
    }

    /// The names of the user-facing commands, in registration order.
    #[verifier::loop_isolation(false)]
    pub fn get_commands_names(&self) -> (r: Vec<String>)
        ensures
            r@.len() <= self.commands@.len(),
            forall|k: int|
                0 <= k < r@.len() ==> user_facing_name(self.commands@, (#[trigger] r@[k])@),
    {
        let mut names: Vec<String> = Vec::new();
        let mut i: usize = 0;
        while i < self.commands.len()
            invariant
                i <= self.commands@.len(),
                names@.len() <= i,
                forall|k: int|
                    0 <= k < names@.len() ==> user_facing_name(
                        self.commands@,
                        (#[trigger] names@[k])@,
                    ),
            decreases self.commands@.len() - i,
        {
            if self.commands[i].1.user_facing {
                let n = self.commands[i].0.clone();
                names.push(n);
                proof {
                    assert(names@.last()@ == self.commands@[i as int].0@);
                    assert(user_facing_name(self.commands@, names@.last()@));
                }
            }
            i += 1;
        }
        names
    }
}

/// The name belongs to a user-facing entry of the table.
pub open spec fn user_facing_name(t: Seq<(String, CommandEntry)>, n: Seq<char>) -> bool {
    exists|w: int| 0 <= w < t.len() && n == (#[trigger] t[w]).0@ && t[w].1.user_facing
}

/// A helper name for an indexing fact used in a proof.
pub open spec fn parts_old_at(parts: Seq<Seq<char>>, k: int) -> Seq<char> {
    parts[k]
}

/// A table whose entry at `at` holds the key, while no other entry does,
/// has that position as its key index.
pub proof fn lemma_table_unique_at<V>(t: Seq<(String, V)>, name: Seq<char>, at: int)
    requires
        0 <= at < t.len(),
        t[at].0@ == name,
        table_unique_keys(t),
    ensures
        table_has_key(t, name),
        table_key_index(t, name) == at,
{
    assert(table_has_key(t, name));
    let c = table_key_index(t, name);
    assert(0 <= c < t.len() && t[c].0@ == name);
    if c != at {
        if c < at {
            assert(t[c].0@ != t[at].0@);
        } else {
            assert(t[at].0@ != t[c].0@);
        }
        assert(false);
    }
}

} // verus!

verus! {

/// The type name a template shows in help text.
pub open spec fn arg_type_name(a: Arg) -> Seq<char> {
    match a {
        Arg::TuiState(_) => "TuiState"@,
        Arg::USIZE(_) => "usize"@,
        Arg::BOOL(_) => "bool"@,
        Arg::I64(_) => "i64"@,
        Arg::I16(_) => "i16"@,
        Arg::U64(_) => "u64"@,
    }
}

/// The type names of all templates, in order.
pub open spec fn arg_type_names(args: Seq<Arg>) -> Seq<Seq<char>> {
    args.map_values(|a: Arg| arg_type_name(a))
}

/// One help line: the bare name, or the name with its comma-separated
/// argument types in angle brackets.
pub open spec fn help_line(name: Seq<char>, args: Seq<Arg>) -> Seq<char> {
    if args.len() == 0 {
        name
    } else {
        name + "=<"@ + crate::strutil::joined(arg_type_names(args), ',') + ">"@
    }
}

/// Builds the help line of one registered name.
pub fn build_help_line(name: &str, args: &Vec<Arg>) -> (r: String)
    ensures
        r@ == help_line(name@, args@),
{
    let mut line = name.to_owned();
    if args.len() == 0 {
        return line;
    }
    line.append("=<");
    let mut csv = String::new();
    let mut k: usize = 0;
    while k < args.len()
        invariant
            k <= args@.len(),
            csv@ == crate::strutil::joined(arg_type_names(args@.take(k as int)), ','),
        decreases args@.len() - k,
    {
        if k > 0 {
            csv.append(",");
        }
        csv.append(args[k].to_type_str());
        proof {
            reveal_strlit(",");
            assert(","@ =~= seq![',']);
            let ghost names_k = arg_type_names(args@.take(k as int));
            let ghost names_k1 = arg_type_names(args@.take(k + 1));
            assert(names_k1 =~= names_k.push(arg_type_name(args@[k as int])));
            if k > 0 {
                crate::strutil::lemma_joined_push(names_k, arg_type_name(args@[k as int]), ',');
            } else {
                assert(names_k1 =~= seq![arg_type_name(args@[0])]);
            }
        }
        k += 1;
    }
    proof {
        assert(args@.take(args@.len() as int) =~= args@);
    }
    line.append(csv.as_str());
    line.append(">");
    line
}

/// The help lines of the user-facing commands, in registration order.
pub open spec fn command_help_texts(t: Seq<(String, CommandEntry)>) -> Seq<Seq<char>>
    decreases t.len(),
{
    if t.len() == 0 {
        Seq::empty()
    } else {
        let rest = command_help_texts(t.drop_last());
        if t.last().1.user_facing {
            rest.push(help_line(t.last().0@, t.last().1.args@))
        } else {
            rest
        }
    }
}

impl CommandsRegistry {
    /// The help text: one line per user-facing command, sorted, joined
    /// with newlines.
    pub fn generate_help_str(&self) -> (r: String)
        ensures
            exists|sorted: Seq<String>|
                {
                    &&& crate::strutil::lex_sorted(sorted)
                    &&& crate::strutil::views_of(sorted).to_multiset() == command_help_texts(
                        self.commands@,
                    ).to_multiset()
                    &&& r@ == crate::strutil::joined(crate::strutil::views_of(sorted), '\n')
                },
    {
        let mut lines: Vec<String> = Vec::new();
        let mut i: usize = 0;
        while i < self.commands.len()
            invariant
                i <= self.commands@.len(),
                crate::strutil::views_of(lines@) == command_help_texts(
                    self.commands@.take(i as int),
                ),
            decreases self.commands@.len() - i,
        {
            if self.commands[i].1.user_facing {
                let line = build_help_line(
                    self.commands[i].0.as_str(),
                    &self.commands[i].1.args,
                );
                lines.push(line);
            }
            proof {
                assert(self.commands@.take(i + 1).drop_last() =~= self.commands@.take(i as int));
                assert(self.commands@.take(i + 1).last() == self.commands@[i as int]);
                if self.commands@[i as int].1.user_facing {
                    assert(crate::strutil::views_of(lines@) =~= command_help_texts(
                        self.commands@.take(i as int),
                    ).push(
                        help_line(
                            self.commands@[i as int].0@,
                            self.commands@[i as int].1.args@,
                        ),
                    ));
                }
            }
            i += 1;
        }
        proof {
            assert(self.commands@.take(self.commands@.len() as int) =~= self.commands@);
        }
        let sorted = crate::strutil::sort_lines(lines);
        join_lines(&sorted)
    }
}

/// Joins lines with newlines between them; no lines give empty text.
pub fn join_lines(lines: &Vec<String>) -> (r: String)
    ensures
        lines@.len() > 0 ==> r@ == crate::strutil::joined(crate::strutil::views_of(lines@), '\n'),
        lines@.len() == 0 ==> r@ == Seq::<char>::empty(),
{
    let mut out = String::new();
    let mut k: usize = 0;
    while k < lines.len()
        invariant
            k <= lines@.len(),
            k > 0 ==> out@ == crate::strutil::joined(
                crate::strutil::views_of(lines@.take(k as int)),
                '\n',
            ),
            k == 0 ==> out@ == Seq::<char>::empty(),
        decreases lines@.len() - k,
    {
        if k > 0 {
            out.append("\n");
        }
        out.append(lines[k].as_str());
        proof {
            reveal_strlit("\n");
            assert("\n"@ =~= seq!['\n']);
            let ghost vk = crate::strutil::views_of(lines@.take(k as int));
            let ghost vk1 = crate::strutil::views_of(lines@.take(k + 1));
            assert(vk1 =~= vk.push(lines@[k as int]@));
            if k > 0 {
                crate::strutil::lemma_joined_push(vk, lines@[k as int]@, '\n');
            } else {
                assert(vk1 =~= seq![lines@[0]@]);
            }
        }
        k += 1;
    }
    proof {
        assert(lines@.take(lines@.len() as int) =~= lines@);
    }
    out
}

} // verus!
