//! Player configuration and the command-line options that adjust it.

use vstd::prelude::*;
use vstd::string::StringExecFns;

use crate::commands::{
    parsed_args_spec, parse_args_list, table_get, table_has_key, table_key_index, table_put,
    table_unique_keys, Arg,
};
use crate::source::Source;
use crate::strutil::{joined, split_char};
use crate::Error;

verus! {

/// The player's configuration. Loading and storing it is the shell's job;
/// the engine only reads these plain values.
#[derive(Debug, Clone)]
pub struct MusicPlayerConfig {
    pub piped_api_domains: Vec<String>,
    pub piped_api_domain_index: usize,
    pub shuffle_playlist: bool,
    pub invidious_api_domains: Vec<String>,
    pub invidious_api_domain_index: usize,
    pub mpv_base_volume: i64,
    pub video_duration_limit_s: u64,
    pub debug_log: bool,
    pub play_only_recommendations: bool,
}

impl MusicPlayerConfig {
    /// The built-in default configuration, used when no configuration file
    /// is found.
    pub fn new() -> (r: Result<Self, crate::Error>)
        ensures
            r matches Ok(c) ==> {
                &&& c.piped_api_domains@.len() == 1
                &&& c.piped_api_domains@[0]@ == "https://piped-api.garudalinux.org"@
                &&& c.piped_api_domain_index == 0
                &&& c.invidious_api_domains@.len() == 1
                &&& c.invidious_api_domains@[0]@ == "https://invidious.garudalinux.org"@
                &&& c.invidious_api_domain_index == 0
                &&& c.mpv_base_volume == 100
                &&& c.video_duration_limit_s == 600
                &&& c.shuffle_playlist
                &&& !c.play_only_recommendations
                &&& !c.debug_log
            },
            r is Ok,
    {
        let mut piped_api_domains: Vec<String> = Vec::new();
        piped_api_domains.push(String::from_str("https://piped-api.garudalinux.org"));
        let mut invidious_api_domains: Vec<String> = Vec::new();
        invidious_api_domains.push(String::from_str("https://invidious.garudalinux.org"));
        Ok(MusicPlayerConfig {
            piped_api_domains,
            piped_api_domain_index: 0,
            shuffle_playlist: true,
            invidious_api_domains,
            invidious_api_domain_index: 0,
            mpv_base_volume: 100,
            video_duration_limit_s: 600,
            debug_log: false,
            play_only_recommendations: false,
        })
    }
}

} // verus!

verus! {

/// The kinds of command-line options.
#[derive(Debug, Clone)]
pub enum OptionType {
    PrintHelp,
    SetPipedApiDomainIndex,
    SetInvidiousApiDomainIndex,
    SetShufflePlaylist,
    SetMpvBaseVolume,
    SetDebugLog,
    SetPlayOnlyRecommendations,
    SetVideoDurationLimit,
    RankPipedApiDomains,
    RankInvidiousApiDomains,
    FetchPipedApiDomains,
    FetchInvidiousApiDomains,
    OverwriteConfig,
}

/// An option with its argument filled in.
#[derive(Debug, Clone, Copy, PartialEq, Eq)]
pub enum OptionAction {
    PrintHelp,
    SetPipedApiDomainIndex(usize),
    SetInvidiousApiDomainIndex(usize),
    SetShufflePlaylist(bool),
    SetMpvBaseVolume(i64),
    SetDebugLog(bool),
    SetPlayOnlyRecommendations(bool),
    SetVideoDurationLimit(u64),
    RankPipedApiDomains,
    RankInvidiousApiDomains,
    FetchPipedApiDomains,
    FetchInvidiousApiDomains,
    OverwriteConfig,
}

/// The action an option type builds from its parsed arguments; payload
/// variants take the last parsed argument and reject an ill-typed one.
pub open spec fn option_action_from_spec(ot: OptionType, parsed: Seq<Arg>) -> Option<
    OptionAction,
> {
    match ot {
        OptionType::PrintHelp => Some(OptionAction::PrintHelp),
        OptionType::RankPipedApiDomains => Some(OptionAction::RankPipedApiDomains),
        OptionType::RankInvidiousApiDomains => Some(OptionAction::RankInvidiousApiDomains),
        OptionType::FetchPipedApiDomains => Some(OptionAction::FetchPipedApiDomains),
        OptionType::FetchInvidiousApiDomains => Some(OptionAction::FetchInvidiousApiDomains),
        OptionType::OverwriteConfig => Some(OptionAction::OverwriteConfig),
        OptionType::SetPipedApiDomainIndex => if parsed.len() >= 1 && parsed.last() is USIZE
            && parsed.last()->USIZE_0 is Some {
            Some(OptionAction::SetPipedApiDomainIndex(parsed.last()->USIZE_0->0))
        } else {
            None
        },
        OptionType::SetInvidiousApiDomainIndex => if parsed.len() >= 1 && parsed.last() is USIZE
            && parsed.last()->USIZE_0 is Some {
            Some(OptionAction::SetInvidiousApiDomainIndex(parsed.last()->USIZE_0->0))
        } else {
            None
        },
        OptionType::SetShufflePlaylist => if parsed.len() >= 1 && parsed.last() is BOOL
            && parsed.last()->BOOL_0 is Some {
            Some(OptionAction::SetShufflePlaylist(parsed.last()->BOOL_0->0))
        } else {
            None
        },
        OptionType::SetMpvBaseVolume => if parsed.len() >= 1 && parsed.last() is I64
            && parsed.last()->I64_0 is Some {
            Some(OptionAction::SetMpvBaseVolume(parsed.last()->I64_0->0))
        } else {
            None
        },
        OptionType::SetDebugLog => if parsed.len() >= 1 && parsed.last() is BOOL
            && parsed.last()->BOOL_0 is Some {
            Some(OptionAction::SetDebugLog(parsed.last()->BOOL_0->0))
        } else {
            None
        },
        OptionType::SetPlayOnlyRecommendations => if parsed.len() >= 1 && parsed.last() is BOOL
            && parsed.last()->BOOL_0 is Some {
            Some(OptionAction::SetPlayOnlyRecommendations(parsed.last()->BOOL_0->0))
        } else {
            None
        },
        OptionType::SetVideoDurationLimit => if parsed.len() >= 1 && parsed.last() is U64
            && parsed.last()->U64_0 is Some {
            Some(OptionAction::SetVideoDurationLimit(parsed.last()->U64_0->0))
        } else {
            None
        },
    }
}

impl OptionType {
    /// Builds the action of this option type from its parsed arguments.
    pub fn map_type_to_action(&self, processed_args: Vec<Arg>) -> (r: Option<OptionAction>)
        ensures
            r == option_action_from_spec(*self, processed_args@),
    {
        let mut processed_args = processed_args;
        match self {
            OptionType::PrintHelp => Some(OptionAction::PrintHelp),
            OptionType::RankPipedApiDomains => Some(OptionAction::RankPipedApiDomains),
            OptionType::RankInvidiousApiDomains => Some(OptionAction::RankInvidiousApiDomains),
            OptionType::FetchPipedApiDomains => Some(OptionAction::FetchPipedApiDomains),
            OptionType::FetchInvidiousApiDomains => Some(OptionAction::FetchInvidiousApiDomains),
            OptionType::OverwriteConfig => Some(OptionAction::OverwriteConfig),
            OptionType::SetPipedApiDomainIndex => match processed_args.pop() {
                Some(a) => match a.extract_usize() {
                    Some(v) => Some(OptionAction::SetPipedApiDomainIndex(v)),
                    None => None,
                },
                None => None,
            },
            OptionType::SetInvidiousApiDomainIndex => match processed_args.pop() {
                Some(a) => match a.extract_usize() {
                    Some(v) => Some(OptionAction::SetInvidiousApiDomainIndex(v)),
                    None => None,
                },
                None => None,
            },
            OptionType::SetShufflePlaylist => match processed_args.pop() {
                Some(a) => match a.extract_bool() {
                    Some(v) => Some(OptionAction::SetShufflePlaylist(v)),
                    None => None,
                },
                None => None,
            },
            OptionType::SetMpvBaseVolume => match processed_args.pop() {
                Some(a) => match a.extract_i64() {
                    Some(v) => Some(OptionAction::SetMpvBaseVolume(v)),
                    None => None,
                },
                None => None,
            },
            OptionType::SetDebugLog => match processed_args.pop() {
                Some(a) => match a.extract_bool() {
                    Some(v) => Some(OptionAction::SetDebugLog(v)),
                    None => None,
                },
                None => None,
            },
            OptionType::SetPlayOnlyRecommendations => match processed_args.pop() {
                Some(a) => match a.extract_bool() {
                    Some(v) => Some(OptionAction::SetPlayOnlyRecommendations(v)),
                    None => None,
                },
                None => None,
            },
            OptionType::SetVideoDurationLimit => match processed_args.pop() {
                Some(a) => match a.extract_u64() {
                    Some(v) => Some(OptionAction::SetVideoDurationLimit(v)),
                    None => None,
                },
                None => None,
            },
        }
    }
}

/// An option as registered: its name, its kind, its argument templates.
pub struct OptionDefinition {
    pub name: String,
    pub option_type: OptionType,
    pub args: Vec<Arg>,
}

/// A registry entry: everything of the definition but the name.
pub struct OptionEntry {
    pub action: OptionType,
    pub args: Vec<Arg>,
}

/// The named options, keyed by name; a name registered again replaces its
/// entry.
pub struct OptionsRegistry {
    pub options: Vec<(String, OptionEntry)>,
}

/// The option text, split on the first `=` into a name and a
/// comma-separated argument list, maps to this result.
pub open spec fn arg_maps_to(
    t: Seq<(String, OptionEntry)>,
    arg: Seq<char>,
    r: Option<OptionAction>,
) -> bool {
    exists|eparts: Seq<Seq<char>>, aparts: Seq<Seq<char>>|
        {
            &&& eparts.len() >= 1
            &&& joined(eparts, '=') == arg
            &&& (forall|k: int| 0 <= k < eparts.len() ==> !(#[trigger] eparts[k]).contains('='))
            &&& (if eparts.len() == 1 {
                aparts.len() == 0
            } else {
                aparts.len() >= 1 && joined(aparts, ',') == eparts[1] && (forall|k: int|
                    0 <= k < aparts.len() ==> !(#[trigger] aparts[k]).contains(','))
            })
            &&& r == map_option_spec(t, eparts[0], aparts)
        }
}

/// What mapping an option name with already-split arguments yields.
pub open spec fn map_option_spec(
    t: Seq<(String, OptionEntry)>,
    name: Seq<char>,
    args: Seq<Seq<char>>,
) -> Option<OptionAction> {
    if table_has_key(t, name) {
        let entry = t[table_key_index(t, name)].1;
        if entry.args@.len() != args.len() {
            None
        } else {
            match parsed_args_spec(entry.args@, args) {
                Some(parsed) => option_action_from_spec(entry.action, parsed),
                None => None,
            }
        }
    } else {
        None
    }
}

impl OptionsRegistry {
    /// Keys are unique.
    pub open spec fn wf(self) -> bool {
        table_unique_keys(self.options@)
    }

    pub fn new() -> (r: Self)
        ensures
            r.wf(),
            r.options@.len() == 0,
    {
        OptionsRegistry { options: Vec::new() }
    }

    /// Registers an option, replacing any entry of the same name; every
    /// other option keeps its entry.
    pub fn add_option(&mut self, option: OptionDefinition)
        requires
            old(self).wf(),
        ensures
            final(self).wf(),
            table_has_key(final(self).options@, option.name@),
            final(self).options@[table_key_index(final(self).options@, option.name@)].1.action
                == option.option_type,
            final(self).options@[table_key_index(final(self).options@, option.name@)].1.args
                == option.args,
            forall|n: Seq<char>|
                n != option.name@ ==> (table_has_key(final(self).options@, n) == table_has_key(
                    old(self).options@,
                    n,
                )),
            forall|n: Seq<char>|
                n != option.name@ && table_has_key(old(self).options@, n)
                    ==> final(self).options@[table_key_index(final(self).options@, n)].1
                    == old(self).options@[table_key_index(old(self).options@, n)].1,
            table_has_key(old(self).options@, option.name@) ==> final(self).options@.len() == old(
                self,
            ).options@.len(),
            !table_has_key(old(self).options@, option.name@) ==> final(self).options@.len() == old(
                self,
            ).options@.len() + 1,
    {
        let entry = OptionEntry { action: option.option_type, args: option.args };
        table_put(&mut self.options, option.name, entry);
    }

    /// Registers several options, in order.
    pub fn add_options(&mut self, options: Vec<OptionDefinition>)
        requires
            old(self).wf(),
        ensures
            final(self).wf(),
    {
        let mut options = options;
        let mut i: usize = 0;
        while i < options.len()
            invariant
                self.wf(),
                i <= options@.len(),
            decreases options@.len() - i,
        {
            let def = options.remove(i);
            let _ = i;
            self.add_option(def);
        }
    }

    /// Maps an option name with already-split arguments to its action:
    /// the name must be registered, the argument count must match the
    /// templates, every argument must parse, and the option type must
    /// accept what was parsed.
    pub fn map_option_to_action(&self, option: &str, args: Vec<String>) -> (r: Option<
        OptionAction,
    >)
        requires
            self.wf(),
        ensures
            r == map_option_spec(self.options@, option@, args@.map_values(|s: String| s@)),
    {
        let entry = match table_get(&self.options, option) {
            Some(e) => e,
            None => {
                return None;
            },
        };
        if entry.args.len() != args.len() {
            return None;
        }
        match parse_args_list(&entry.args, &args) {
            Some(parsed) => entry.action.map_type_to_action(parsed),
            None => None,
        }
    }

    /// Splits option text on the first `=` into a name and a
    /// comma-separated argument list, and maps them to an action.
    pub fn map_option_str_to_action(&self, option: &str) -> (r: Option<OptionAction>)
        requires
            self.wf(),
        ensures
            arg_maps_to(self.options@, option@, r),
    {
        let mut eparts = split_char(option, '=');
        let ghost epartviews = eparts@.map_values(|s: String| s@);
        let name = eparts.remove(0);
        let args: Vec<String> = if eparts.len() >= 1 {
            let second = eparts.remove(0);
            split_char(second.as_str(), ',')
        } else {
            Vec::new()
        };
        let ghost apartviews = args@.map_values(|s: String| s@);
        let r = self.map_option_to_action(name.as_str(), args);
        proof {
            assert(epartviews[0] == name@);
            if epartviews.len() >= 2 {
                assert(epartviews[1] == epartviews.drop_first()[0]);
            }
            assert(apartviews.len() == 0 ==> Seq::<Seq<char>>::empty() =~= apartviews);
            assert forall|k: int| 0 <= k < epartviews.len() implies !(
            #[trigger] epartviews[k]).contains('=') by {
                assert(epartviews[k] == crate::commands::parts_old_at(epartviews, k));
            }
        }
        r
    }

    /// The names of the registered options, in registration order.
    pub fn get_options_names(&self) -> (r: Vec<String>)
        ensures
            r@.len() == self.options@.len(),
            forall|k: int| 0 <= k < r@.len() ==> (#[trigger] r@[k])@ == self.options@[k].0@,
    {
        let mut names: Vec<String> = Vec::new();
        let mut i: usize = 0;
        while i < self.options.len()
            invariant
                i <= self.options@.len(),
                names@.len() == i,
                forall|k: int| 0 <= k < i ==> (#[trigger] names@[k])@ == self.options@[k].0@,
            decreases self.options@.len() - i,
        {
            let n = self.options[i].0.clone();
            names.push(n);
            i += 1;
        }
        names
    }
}

} // verus!

verus! {

/// An action the simple pass defers to the complex pass: a mirror-list
/// fetch or ranking.
pub open spec fn is_complex_action(a: OptionAction) -> bool {
    ||| a is RankPipedApiDomains
    ||| a is RankInvidiousApiDomains
    ||| a is FetchPipedApiDomains
    ||| a is FetchInvidiousApiDomains
}

/// The complex-action filter, as one shared predicate value.
pub open spec fn complex_pred() -> spec_fn(OptionAction) -> bool {
    |a: OptionAction| is_complex_action(a)
}

/// The configuration after one simple action; complex actions and plain
/// markers leave it unchanged.
pub open spec fn apply_one_simple(cfg: MusicPlayerConfig, a: OptionAction) -> MusicPlayerConfig {
    match a {
        OptionAction::SetPipedApiDomainIndex(index) => MusicPlayerConfig {
            piped_api_domain_index: index,
            ..cfg
        },
        OptionAction::SetInvidiousApiDomainIndex(index) => MusicPlayerConfig {
            invidious_api_domain_index: index,
            ..cfg
        },
        OptionAction::SetShufflePlaylist(val) => MusicPlayerConfig {
            shuffle_playlist: val,
            ..cfg
        },
        OptionAction::SetMpvBaseVolume(val) => MusicPlayerConfig { mpv_base_volume: val, ..cfg },
        OptionAction::SetVideoDurationLimit(val) => MusicPlayerConfig {
            video_duration_limit_s: val,
            ..cfg
        },
        OptionAction::SetDebugLog(val) => MusicPlayerConfig { debug_log: val, ..cfg },
        OptionAction::SetPlayOnlyRecommendations(val) => MusicPlayerConfig {
            play_only_recommendations: val,
            ..cfg
        },
        _ => cfg,
    }
}

/// The configuration after a list of simple actions, applied in order.
pub open spec fn apply_simple_all(
    cfg: MusicPlayerConfig,
    actions: Seq<OptionAction>,
) -> MusicPlayerConfig
    decreases actions.len(),
{
    if actions.len() == 0 {
        cfg
    } else {
        apply_one_simple(apply_simple_all(cfg, actions.drop_last()), actions.last())
    }
}

/// The list asks for a stream-API mirror directory fetch.
pub open spec fn wants_fetch_piped(actions: Seq<OptionAction>) -> bool {
    exists|j: int| 0 <= j < actions.len() && (#[trigger] actions[j]) is FetchPipedApiDomains
}

/// The list asks for a metadata-API mirror directory fetch.
pub open spec fn wants_fetch_invidious(actions: Seq<OptionAction>) -> bool {
    exists|j: int| 0 <= j < actions.len() && (#[trigger] actions[j]) is FetchInvidiousApiDomains
}

/// The list asks for stream-API mirror ranking.
pub open spec fn wants_rank_piped(actions: Seq<OptionAction>) -> bool {
    exists|j: int| 0 <= j < actions.len() && (#[trigger] actions[j]) is RankPipedApiDomains
}

/// The list asks for metadata-API mirror ranking.
pub open spec fn wants_rank_invidious(actions: Seq<OptionAction>) -> bool {
    exists|j: int| 0 <= j < actions.len() && (#[trigger] actions[j]) is RankInvidiousApiDomains
}

impl MusicPlayerConfig {
    /// Applies every simple action to the configuration, in order, and
    /// hands back the complex ones, in order, for the shell to carry out.
    pub fn apply_simple_actions(&mut self, actions: Vec<OptionAction>) -> (r: Vec<OptionAction>)
        ensures
            *final(self) == apply_simple_all(*old(self), actions@),
            r@ == actions@.filter(complex_pred()),
    {
        let mut complex_actions: Vec<OptionAction> = Vec::new();
        let mut k: usize = 0;
        while k < actions.len()
            invariant
                k <= actions@.len(),
                *self == apply_simple_all(*old(self), actions@.take(k as int)),
                complex_actions@ == actions@.take(k as int).filter(complex_pred()),
            decreases actions@.len() - k,
        {
            let action = actions[k];
            match action {
                OptionAction::SetPipedApiDomainIndex(index) => {
                    self.piped_api_domain_index = index;
                },
                OptionAction::SetShufflePlaylist(val) => {
                    self.shuffle_playlist = val;
                },
                OptionAction::SetInvidiousApiDomainIndex(index) => {
                    self.invidious_api_domain_index = index;
                },
                OptionAction::SetMpvBaseVolume(val) => {
                    self.mpv_base_volume = val;
                },
                OptionAction::SetVideoDurationLimit(val) => {
                    self.video_duration_limit_s = val;
                },
                OptionAction::SetDebugLog(val) => {
                    self.debug_log = val;
                },
                OptionAction::SetPlayOnlyRecommendations(val) => {
                    self.play_only_recommendations = val;
                },
                OptionAction::PrintHelp => {},
                OptionAction::OverwriteConfig => {},
                OptionAction::RankPipedApiDomains => {
                    complex_actions.push(OptionAction::RankPipedApiDomains);
                },
                OptionAction::RankInvidiousApiDomains => {
                    complex_actions.push(OptionAction::RankInvidiousApiDomains);
                },
                OptionAction::FetchPipedApiDomains => {
                    complex_actions.push(OptionAction::FetchPipedApiDomains);
                },
                OptionAction::FetchInvidiousApiDomains => {
                    complex_actions.push(OptionAction::FetchInvidiousApiDomains);
                },
            }
            k += 1;
            proof {
                reveal(Seq::filter);
                let pred = complex_pred();
                assert(actions@.take(k as int).drop_last() =~= actions@.take(k - 1));
                assert(actions@.take(k as int).last() == actions@[k - 1]);
                assert(actions@.take(k as int).filter(pred) == if pred(actions@[k - 1]) {
                    actions@.take(k - 1).filter(pred).push(actions@[k - 1])
                } else {
                    actions@.take(k - 1).filter(pred)
                });
            }
        }
        proof {
            reveal(Seq::filter);
            assert(actions@.take(actions@.len() as int) =~= actions@);
            if actions@.len() == 0 {
                assert(actions@.filter(complex_pred()) =~= Seq::<OptionAction>::empty());
            }
        }
        complex_actions
    }

    /// Carries out the requested mirror directory fetches from what the
    /// shell fetched, stream family first, and reports which rankings the
    /// shell must still run. A requested fetch that came back empty-handed
    /// is the fetch's own error and leaves the rest undone.
    pub fn apply_complex_actions(
        &mut self,
        actions: Vec<OptionAction>,
        fetched_piped: Option<Vec<String>>,
        fetched_invidious: Option<Vec<String>>,
    ) -> (r: Result<(bool, bool), Error>)
        ensures
            final(self).shuffle_playlist == old(self).shuffle_playlist,
            final(self).mpv_base_volume == old(self).mpv_base_volume,
            final(self).video_duration_limit_s == old(self).video_duration_limit_s,
            final(self).debug_log == old(self).debug_log,
            final(self).play_only_recommendations == old(self).play_only_recommendations,
            r is Ok <==> (wants_fetch_piped(actions@) ==> fetched_piped is Some) && (
            wants_fetch_invidious(actions@) ==> fetched_invidious is Some),
            r matches Ok(flags) ==> flags.0 == wants_rank_piped(actions@) && flags.1
                == wants_rank_invidious(actions@),
            r matches Err(e) ==> e is OtherError,
            wants_fetch_piped(actions@) && fetched_piped is Some ==> final(self).piped_api_domains
                == fetched_piped->0 && final(self).piped_api_domain_index == 0,
            !wants_fetch_piped(actions@) || fetched_piped is None ==> final(self).piped_api_domains
                == old(self).piped_api_domains && final(self).piped_api_domain_index == old(
                self,
            ).piped_api_domain_index,
            wants_fetch_invidious(actions@) && fetched_invidious is Some && (wants_fetch_piped(
                actions@,
            ) ==> fetched_piped is Some) ==> final(self).invidious_api_domains
                == fetched_invidious->0 && final(self).invidious_api_domain_index == 0,
            !wants_fetch_invidious(actions@) || fetched_invidious is None || (wants_fetch_piped(
                actions@,
            ) && fetched_piped is None) ==> final(self).invidious_api_domains == old(
                self,
            ).invidious_api_domains && final(self).invidious_api_domain_index == old(
                self,
            ).invidious_api_domain_index,
    {
        let mut rank_piped = false;
        let mut rank_invidious = false;
        let mut fetch_piped = false;
        let mut fetch_invidious = false;

        let mut k: usize = 0;
        while k < actions.len()
            invariant
                k <= actions@.len(),
                rank_piped == wants_rank_piped(actions@.take(k as int)),
                rank_invidious == wants_rank_invidious(actions@.take(k as int)),
                fetch_piped == wants_fetch_piped(actions@.take(k as int)),
                fetch_invidious == wants_fetch_invidious(actions@.take(k as int)),
            decreases actions@.len() - k,
        {
            match actions[k] {
                OptionAction::RankPipedApiDomains => {
                    rank_piped = true;
                },
                OptionAction::RankInvidiousApiDomains => {
                    rank_invidious = true;
                },
                OptionAction::FetchPipedApiDomains => {
                    fetch_piped = true;
                },
                OptionAction::FetchInvidiousApiDomains => {
                    fetch_invidious = true;
                },
                _ => {},
            }
            k += 1;
            proof {
                assert forall|j: int|
                    0 <= j < k && (#[trigger] actions@.take(k as int)[j])
                        is RankPipedApiDomains implies true by {}
                assert(actions@.take(k as int)[k - 1] == actions@[k - 1]);
                assert forall|j: int| 0 <= j < k - 1 implies actions@.take(k as int)[j]
                    == actions@.take(k - 1)[j] by {}
            }
        }
        proof {
            assert(actions@.take(actions@.len() as int) =~= actions@);
        }

        if fetch_piped {
            match fetched_piped {
                Some(piped_api_domains) => {
                    self.piped_api_domains = piped_api_domains;
                    self.piped_api_domain_index = 0;
                },
                None => {
                    return Err(
                        Error::OtherError(
                            String::from_str("fetching the piped api domain list failed"),
                        ),
                    );
                },
            }
        }
        if fetch_invidious {
            match fetched_invidious {
                Some(invidious_api_domains) => {
                    self.invidious_api_domains = invidious_api_domains;
                    self.invidious_api_domain_index = 0;
                },
                None => {
                    return Err(
                        Error::OtherError(
                            String::from_str("fetching the invidious api domain list failed"),
                        ),
                    );
                },
            }
        }
        Ok((rank_piped, rank_invidious))
    }
}

} // verus!

verus! {

/// The smallest of three values.
pub open spec fn min3(p: nat, q: nat, r: nat) -> nat {
    if p <= q && p <= r {
        p
    } else if q <= r {
        q
    } else {
        r
    }
}

/// The edit distance between the first `x` characters of `a` and the
/// first `y` characters of `b`: the least number of single-character
/// insertions, deletions and substitutions turning one into the other.
pub open spec fn edit_dist(a: Seq<char>, b: Seq<char>, x: nat, y: nat) -> nat
    recommends
        x <= a.len(),
        y <= b.len(),
    decreases x + y,
{
    if x == 0 {
        y
    } else if y == 0 {
        x
    } else if a[x - 1] == b[y - 1] {
        edit_dist(a, b, (x - 1) as nat, (y - 1) as nat)
    } else {
        1 + min3(
            edit_dist(a, b, (x - 1) as nat, y),
            edit_dist(a, b, x, (y - 1) as nat),
            edit_dist(a, b, (x - 1) as nat, (y - 1) as nat),
        )
    }
}

/// The edit distance never exceeds the longer length: substituting the
/// overlap and inserting or deleting the rest always suffices.
pub proof fn lemma_edit_dist_le_max(a: Seq<char>, b: Seq<char>, x: nat, y: nat)
    ensures
        edit_dist(a, b, x, y) <= if x >= y {
            x
        } else {
            y
        },
    decreases x + y,
{
    if x == 0 || y == 0 {
    } else {
        lemma_edit_dist_le_max(a, b, (x - 1) as nat, (y - 1) as nat);
        if a[x - 1] != b[y - 1] {
            lemma_edit_dist_le_max(a, b, (x - 1) as nat, y);
            lemma_edit_dist_le_max(a, b, x, (y - 1) as nat);
        }
    }
}

/// The edit distance between two texts, as a single byte.
/// <https://en.wikipedia.org/wiki/Levenshtein_distance>
pub fn lev(a: &str, b: &str) -> (r: u8)
    requires
        a@.len() <= 255,
        b@.len() <= 255,
    ensures
        r == edit_dist(a@, b@, a@.len(), b@.len()),
{
    let a_len = a.unicode_len();
    let b_len = b.unicode_len();
    let mut v0: Vec<usize> = Vec::new();
    let mut i: usize = 0;
    while i <= a_len
        invariant
            a_len == a@.len(),
            a_len <= 255,
            i <= a_len + 1,
            v0@.len() == i,
            forall|t: int| 0 <= t < i ==> v0@[t] == edit_dist(a@, b@, t as nat, 0),
        decreases a_len + 1 - i,
    {
        v0.push(i);
        i += 1;
    }
    let mut y: usize = 1;
    while y <= b_len
        invariant
            a_len == a@.len(),
            b_len == b@.len(),
            b_len <= 255,
            a_len <= 255,
            1 <= y <= b_len + 1,
            v0@.len() == a_len + 1,
            forall|t: int| 0 <= t <= a_len ==> v0@[t] == edit_dist(a@, b@, t as nat, (y - 1) as nat),
        decreases b_len + 1 - y,
    {
        let mut v1: Vec<usize> = Vec::new();
        proof {
            lemma_edit_dist_le_max(a@, b@, 0, (y - 1) as nat);
        }
        v1.push(v0[0] + 1);
        let mut x: usize = 1;
        while x <= a_len
            invariant
                a_len == a@.len(),
                b_len == b@.len(),
                a_len <= 255,
                b_len <= 255,
                1 <= y <= b_len,
                1 <= x <= a_len + 1,
                v0@.len() == a_len + 1,
                forall|t: int|
                    0 <= t <= a_len ==> v0@[t] == edit_dist(a@, b@, t as nat, (y - 1) as nat),
                v1@.len() == x,
                forall|t: int| 0 <= t < x ==> v1@[t] == edit_dist(a@, b@, t as nat, y as nat),
            decreases a_len + 1 - x,
        {
            proof {
                lemma_edit_dist_le_max(a@, b@, x as nat, (y - 1) as nat);
                lemma_edit_dist_le_max(a@, b@, (x - 1) as nat, (y - 1) as nat);
                lemma_edit_dist_le_max(a@, b@, (x - 1) as nat, y as nat);
            }
            if b.get_char(y - 1) == a.get_char(x - 1) {
                v1.push(v0[x - 1]);
            } else {
                let m1 = v0[x];
                let m2 = v0[x - 1];
                let m3 = v1[x - 1];
                let mut m = m1;
                if m2 < m {
                    m = m2;
                }
                if m3 < m {
                    m = m3;
                }
                v1.push(1 + m);
            }
            x += 1;
        }
        v0 = v1;
        y += 1;
    }
    proof {
        lemma_edit_dist_le_max(a@, b@, a_len as nat, b_len as nat);
    }
    let d = v0[a_len];
    d as u8
}

} // verus!

verus! {

/// The entry registered under a name. Meaningful when the name is
/// registered and keys are unique.
pub open spec fn entry_at(t: Seq<(String, OptionEntry)>, n: Seq<char>) -> OptionEntry {
    t[table_key_index(t, n)].1
}

/// The name is registered with this option type and this number of
/// arguments.
pub open spec fn option_registered(
    t: Seq<(String, OptionEntry)>,
    n: Seq<char>,
    ot: OptionType,
    n_args: int,
) -> bool {
    &&& table_has_key(t, n)
    &&& entry_at(t, n).action == ot
    &&& entry_at(t, n).args@.len() == n_args
}

/// The built-in command-line options, each under its name.
pub open spec fn default_options_ok(t: Seq<(String, OptionEntry)>) -> bool {
    &&& table_unique_keys(t)
    &&& option_registered(t, "--help"@, OptionType::PrintHelp, 0)
    &&& option_registered(t, "--piped_api_domain_index"@, OptionType::SetPipedApiDomainIndex, 1)
    &&& option_registered(t, "--shuffle_playlist"@, OptionType::SetShufflePlaylist, 1)
    &&& option_registered(
        t,
        "--invidious_api_domain_index"@,
        OptionType::SetInvidiousApiDomainIndex,
        1,
    )
    &&& option_registered(t, "--mpv_base_volume"@, OptionType::SetMpvBaseVolume, 1)
    &&& option_registered(t, "--video_duration_limit_s"@, OptionType::SetVideoDurationLimit, 1)
    &&& option_registered(t, "--debug_log"@, OptionType::SetDebugLog, 1)
    &&& option_registered(
        t,
        "--play_only_recommendations"@,
        OptionType::SetPlayOnlyRecommendations,
        1,
    )
    &&& option_registered(t, "--rank_piped_api_domains"@, OptionType::RankPipedApiDomains, 0)
    &&& option_registered(
        t,
        "--rank_invidious_api_domains"@,
        OptionType::RankInvidiousApiDomains,
        0,
    )
    &&& option_registered(t, "--fetch_piped_api_domains"@, OptionType::FetchPipedApiDomains, 0)
    &&& option_registered(
        t,
        "--fetch_invidious_api_domains"@,
        OptionType::FetchInvidiousApiDomains,
        0,
    )
    &&& option_registered(t, "--overwrite_config"@, OptionType::OverwriteConfig, 0)
}

/// Knows the command-line options and maps argument text onto them.
pub struct MusicPlayerOptions {
    pub options: OptionsRegistry,
}

impl MusicPlayerOptions {
    pub fn new() -> (r: Self)
        ensures
            r.options.wf(),
            default_options_ok(r.options.options@),
    {
        Self { options: Self::init_options() }
    }

    /// Builds the registry of every built-in option.
    #[verifier::rlimit(100)]
    fn init_options() -> (r: OptionsRegistry)
        ensures
            r.wf(),
            default_options_ok(r.options@),
    {
        proof {
            reveal_strlit("--help");
            reveal_strlit("--piped_api_domain_index");
            reveal_strlit("--shuffle_playlist");
            reveal_strlit("--invidious_api_domain_index");
            reveal_strlit("--mpv_base_volume");
            reveal_strlit("--video_duration_limit_s");
            reveal_strlit("--debug_log");
            reveal_strlit("--play_only_recommendations");
            reveal_strlit("--rank_piped_api_domains");
            reveal_strlit("--rank_invidious_api_domains");
            reveal_strlit("--fetch_piped_api_domains");
            reveal_strlit("--fetch_invidious_api_domains");
            reveal_strlit("--overwrite_config");
        }
        let mut options = OptionsRegistry::new();
        options.add_option(
            OptionDefinition {
                name: String::from_str("--help"),
                option_type: OptionType::PrintHelp,
                args: vec![],
            },
        );
        proof {
            reveal_strlit("--help");
            assert("--help"@.len() == 6);
            assert(option_registered(options.options@, "--help"@, OptionType::PrintHelp, 0));
        }
        options.add_option(
            OptionDefinition {
                name: String::from_str("--piped_api_domain_index"),
                option_type: OptionType::SetPipedApiDomainIndex,
                args: vec![Arg::USIZE(None)],
            },
        );
        proof {
            reveal_strlit("--help");
            reveal_strlit("--piped_api_domain_index");
            assert("--help"@.len() == 6);
            assert("--piped_api_domain_index"@.len() == 24);
            assert("--help"@ != "--piped_api_domain_index"@);
            assert(option_registered(options.options@, "--help"@, OptionType::PrintHelp, 0));
            assert(option_registered(options.options@, "--piped_api_domain_index"@, OptionType::SetPipedApiDomainIndex, 1));
        }
        options.add_option(
            OptionDefinition {
                name: String::from_str("--shuffle_playlist"),
                option_type: OptionType::SetShufflePlaylist,
                args: vec![Arg::BOOL(None)],
            },
        );
        proof {
            reveal_strlit("--help");
            reveal_strlit("--piped_api_domain_index");
            reveal_strlit("--shuffle_playlist");
            assert("--help"@.len() == 6);
            assert("--piped_api_domain_index"@.len() == 24);
            assert("--shuffle_playlist"@.len() == 18);
            assert("--help"@ != "--shuffle_playlist"@);
            assert("--piped_api_domain_index"@ != "--shuffle_playlist"@);
            assert(option_registered(options.options@, "--help"@, OptionType::PrintHelp, 0));
            assert(option_registered(options.options@, "--piped_api_domain_index"@, OptionType::SetPipedApiDomainIndex, 1));
            assert(option_registered(options.options@, "--shuffle_playlist"@, OptionType::SetShufflePlaylist, 1));
        }
        options.add_option(
            OptionDefinition {
                name: String::from_str("--invidious_api_domain_index"),
                option_type: OptionType::SetInvidiousApiDomainIndex,
                args: vec![Arg::USIZE(None)],
            },
        );
        proof {
            reveal_strlit("--help");
            reveal_strlit("--piped_api_domain_index");
            reveal_strlit("--shuffle_playlist");
            reveal_strlit("--invidious_api_domain_index");
            assert("--help"@.len() == 6);
            assert("--piped_api_domain_index"@.len() == 24);
            assert("--shuffle_playlist"@.len() == 18);
            assert("--invidious_api_domain_index"@.len() == 28);
            assert("--help"@ != "--invidious_api_domain_index"@);
            assert("--piped_api_domain_index"@ != "--invidious_api_domain_index"@);
            assert("--shuffle_playlist"@ != "--invidious_api_domain_index"@);
            assert(option_registered(options.options@, "--help"@, OptionType::PrintHelp, 0));
            assert(option_registered(options.options@, "--piped_api_domain_index"@, OptionType::SetPipedApiDomainIndex, 1));
            assert(option_registered(options.options@, "--shuffle_playlist"@, OptionType::SetShufflePlaylist, 1));
            assert(option_registered(options.options@, "--invidious_api_domain_index"@, OptionType::SetInvidiousApiDomainIndex, 1));
        }
        options.add_option(
            OptionDefinition {
                name: String::from_str("--mpv_base_volume"),
                option_type: OptionType::SetMpvBaseVolume,
                args: vec![Arg::I64(None)],
            },
        );
        proof {
            reveal_strlit("--help");
            reveal_strlit("--piped_api_domain_index");
            reveal_strlit("--shuffle_playlist");
            reveal_strlit("--invidious_api_domain_index");
            reveal_strlit("--mpv_base_volume");
            assert("--help"@.len() == 6);
            assert("--piped_api_domain_index"@.len() == 24);
            assert("--shuffle_playlist"@.len() == 18);
            assert("--invidious_api_domain_index"@.len() == 28);
            assert("--mpv_base_volume"@.len() == 17);
            assert("--help"@ != "--mpv_base_volume"@);
            assert("--piped_api_domain_index"@ != "--mpv_base_volume"@);
            assert("--shuffle_playlist"@ != "--mpv_base_volume"@);
            assert("--invidious_api_domain_index"@ != "--mpv_base_volume"@);
            assert(option_registered(options.options@, "--help"@, OptionType::PrintHelp, 0));
            assert(option_registered(options.options@, "--piped_api_domain_index"@, OptionType::SetPipedApiDomainIndex, 1));
            assert(option_registered(options.options@, "--shuffle_playlist"@, OptionType::SetShufflePlaylist, 1));
            assert(option_registered(options.options@, "--invidious_api_domain_index"@, OptionType::SetInvidiousApiDomainIndex, 1));
            assert(option_registered(options.options@, "--mpv_base_volume"@, OptionType::SetMpvBaseVolume, 1));
        }
        options.add_option(
            OptionDefinition {
                name: String::from_str("--video_duration_limit_s"),
                option_type: OptionType::SetVideoDurationLimit,
                args: vec![Arg::U64(None)],
            },
        );
        proof {
            reveal_strlit("--help");
            reveal_strlit("--piped_api_domain_index");
            reveal_strlit("--shuffle_playlist");
            reveal_strlit("--invidious_api_domain_index");
            reveal_strlit("--mpv_base_volume");
            reveal_strlit("--video_duration_limit_s");
            assert("--help"@.len() == 6);
            assert("--piped_api_domain_index"@.len() == 24);
            assert("--shuffle_playlist"@.len() == 18);
            assert("--invidious_api_domain_index"@.len() == 28);
            assert("--mpv_base_volume"@.len() == 17);
            assert("--video_duration_limit_s"@.len() == 24);
            assert("--help"@ != "--video_duration_limit_s"@);
            assert("--piped_api_domain_index"@[2] != "--video_duration_limit_s"@[2]);
            assert("--piped_api_domain_index"@ != "--video_duration_limit_s"@);
            assert("--shuffle_playlist"@ != "--video_duration_limit_s"@);
            assert("--invidious_api_domain_index"@ != "--video_duration_limit_s"@);
            assert("--mpv_base_volume"@ != "--video_duration_limit_s"@);
            assert(option_registered(options.options@, "--help"@, OptionType::PrintHelp, 0));
            assert(option_registered(options.options@, "--piped_api_domain_index"@, OptionType::SetPipedApiDomainIndex, 1));
            assert(option_registered(options.options@, "--shuffle_playlist"@, OptionType::SetShufflePlaylist, 1));
            assert(option_registered(options.options@, "--invidious_api_domain_index"@, OptionType::SetInvidiousApiDomainIndex, 1));
            assert(option_registered(options.options@, "--mpv_base_volume"@, OptionType::SetMpvBaseVolume, 1));
            assert(option_registered(options.options@, "--video_duration_limit_s"@, OptionType::SetVideoDurationLimit, 1));
        }
        options.add_option(
            OptionDefinition {
                name: String::from_str("--debug_log"),
                option_type: OptionType::SetDebugLog,
                args: vec![Arg::BOOL(None)],
            },
        );
        proof {
            reveal_strlit("--help");
            reveal_strlit("--piped_api_domain_index");
            reveal_strlit("--shuffle_playlist");
            reveal_strlit("--invidious_api_domain_index");
            reveal_strlit("--mpv_base_volume");
            reveal_strlit("--video_duration_limit_s");
            reveal_strlit("--debug_log");
            assert("--help"@.len() == 6);
            assert("--piped_api_domain_index"@.len() == 24);
            assert("--shuffle_playlist"@.len() == 18);
            assert("--invidious_api_domain_index"@.len() == 28);
            assert("--mpv_base_volume"@.len() == 17);
            assert("--video_duration_limit_s"@.len() == 24);
            assert("--debug_log"@.len() == 11);
            assert("--help"@ != "--debug_log"@);
            assert("--piped_api_domain_index"@ != "--debug_log"@);
            assert("--shuffle_playlist"@ != "--debug_log"@);
            assert("--invidious_api_domain_index"@ != "--debug_log"@);
            assert("--mpv_base_volume"@ != "--debug_log"@);
            assert("--video_duration_limit_s"@ != "--debug_log"@);
            assert(option_registered(options.options@, "--help"@, OptionType::PrintHelp, 0));
            assert(option_registered(options.options@, "--piped_api_domain_index"@, OptionType::SetPipedApiDomainIndex, 1));
            assert(option_registered(options.options@, "--shuffle_playlist"@, OptionType::SetShufflePlaylist, 1));
            assert(option_registered(options.options@, "--invidious_api_domain_index"@, OptionType::SetInvidiousApiDomainIndex, 1));
            assert(option_registered(options.options@, "--mpv_base_volume"@, OptionType::SetMpvBaseVolume, 1));
            assert(option_registered(options.options@, "--video_duration_limit_s"@, OptionType::SetVideoDurationLimit, 1));
            assert(option_registered(options.options@, "--debug_log"@, OptionType::SetDebugLog, 1));
        }
        options.add_option(
            OptionDefinition {
                name: String::from_str("--play_only_recommendations"),
                option_type: OptionType::SetPlayOnlyRecommendations,
                args: vec![Arg::BOOL(None)],
            },
        );
        proof {
            reveal_strlit("--help");
            reveal_strlit("--piped_api_domain_index");
            reveal_strlit("--shuffle_playlist");
            reveal_strlit("--invidious_api_domain_index");
            reveal_strlit("--mpv_base_volume");
            reveal_strlit("--video_duration_limit_s");
            reveal_strlit("--debug_log");
            reveal_strlit("--play_only_recommendations");
            assert("--help"@.len() == 6);
            assert("--piped_api_domain_index"@.len() == 24);
            assert("--shuffle_playlist"@.len() == 18);
            assert("--invidious_api_domain_index"@.len() == 28);
            assert("--mpv_base_volume"@.len() == 17);
            assert("--video_duration_limit_s"@.len() == 24);
            assert("--debug_log"@.len() == 11);
            assert("--play_only_recommendations"@.len() == 27);
            assert("--help"@ != "--play_only_recommendations"@);
            assert("--piped_api_domain_index"@ != "--play_only_recommendations"@);
            assert("--shuffle_playlist"@ != "--play_only_recommendations"@);
            assert("--invidious_api_domain_index"@ != "--play_only_recommendations"@);
            assert("--mpv_base_volume"@ != "--play_only_recommendations"@);
            assert("--video_duration_limit_s"@ != "--play_only_recommendations"@);
            assert("--debug_log"@ != "--play_only_recommendations"@);
            assert(option_registered(options.options@, "--help"@, OptionType::PrintHelp, 0));
            assert(option_registered(options.options@, "--piped_api_domain_index"@, OptionType::SetPipedApiDomainIndex, 1));
            assert(option_registered(options.options@, "--shuffle_playlist"@, OptionType::SetShufflePlaylist, 1));
            assert(option_registered(options.options@, "--invidious_api_domain_index"@, OptionType::SetInvidiousApiDomainIndex, 1));
            assert(option_registered(options.options@, "--mpv_base_volume"@, OptionType::SetMpvBaseVolume, 1));
            assert(option_registered(options.options@, "--video_duration_limit_s"@, OptionType::SetVideoDurationLimit, 1));
            assert(option_registered(options.options@, "--debug_log"@, OptionType::SetDebugLog, 1));
            assert(option_registered(options.options@, "--play_only_recommendations"@, OptionType::SetPlayOnlyRecommendations, 1));
        }
        options.add_option(
            OptionDefinition {
                name: String::from_str("--rank_piped_api_domains"),
                option_type: OptionType::RankPipedApiDomains,
                args: vec![],
            },
        );
        proof {
            reveal_strlit("--help");
            reveal_strlit("--piped_api_domain_index");
            reveal_strlit("--shuffle_playlist");
            reveal_strlit("--invidious_api_domain_index");
            reveal_strlit("--mpv_base_volume");
            reveal_strlit("--video_duration_limit_s");
            reveal_strlit("--debug_log");
            reveal_strlit("--play_only_recommendations");
            reveal_strlit("--rank_piped_api_domains");
            assert("--help"@.len() == 6);
            assert("--piped_api_domain_index"@.len() == 24);
            assert("--shuffle_playlist"@.len() == 18);
            assert("--invidious_api_domain_index"@.len() == 28);
            assert("--mpv_base_volume"@.len() == 17);
            assert("--video_duration_limit_s"@.len() == 24);
            assert("--debug_log"@.len() == 11);
            assert("--play_only_recommendations"@.len() == 27);
            assert("--rank_piped_api_domains"@.len() == 24);
            assert("--help"@ != "--rank_piped_api_domains"@);
            assert("--piped_api_domain_index"@[2] != "--rank_piped_api_domains"@[2]);
            assert("--piped_api_domain_index"@ != "--rank_piped_api_domains"@);
            assert("--shuffle_playlist"@ != "--rank_piped_api_domains"@);
            assert("--invidious_api_domain_index"@ != "--rank_piped_api_domains"@);
            assert("--mpv_base_volume"@ != "--rank_piped_api_domains"@);
            assert("--video_duration_limit_s"@[2] != "--rank_piped_api_domains"@[2]);
            assert("--video_duration_limit_s"@ != "--rank_piped_api_domains"@);
            assert("--debug_log"@ != "--rank_piped_api_domains"@);
            assert("--play_only_recommendations"@ != "--rank_piped_api_domains"@);
            assert(option_registered(options.options@, "--help"@, OptionType::PrintHelp, 0));
            assert(option_registered(options.options@, "--piped_api_domain_index"@, OptionType::SetPipedApiDomainIndex, 1));
            assert(option_registered(options.options@, "--shuffle_playlist"@, OptionType::SetShufflePlaylist, 1));
            assert(option_registered(options.options@, "--invidious_api_domain_index"@, OptionType::SetInvidiousApiDomainIndex, 1));
            assert(option_registered(options.options@, "--mpv_base_volume"@, OptionType::SetMpvBaseVolume, 1));
            assert(option_registered(options.options@, "--video_duration_limit_s"@, OptionType::SetVideoDurationLimit, 1));
            assert(option_registered(options.options@, "--debug_log"@, OptionType::SetDebugLog, 1));
            assert(option_registered(options.options@, "--play_only_recommendations"@, OptionType::SetPlayOnlyRecommendations, 1));
            assert(option_registered(options.options@, "--rank_piped_api_domains"@, OptionType::RankPipedApiDomains, 0));
        }
        options.add_option(
            OptionDefinition {
                name: String::from_str("--rank_invidious_api_domains"),
                option_type: OptionType::RankInvidiousApiDomains,
                args: vec![],
            },
        );
        proof {
            reveal_strlit("--help");
            reveal_strlit("--piped_api_domain_index");
            reveal_strlit("--shuffle_playlist");
            reveal_strlit("--invidious_api_domain_index");
            reveal_strlit("--mpv_base_volume");
            reveal_strlit("--video_duration_limit_s");
            reveal_strlit("--debug_log");
            reveal_strlit("--play_only_recommendations");
            reveal_strlit("--rank_piped_api_domains");
            reveal_strlit("--rank_invidious_api_domains");
            assert("--help"@.len() == 6);
            assert("--piped_api_domain_index"@.len() == 24);
            assert("--shuffle_playlist"@.len() == 18);
            assert("--invidious_api_domain_index"@.len() == 28);
            assert("--mpv_base_volume"@.len() == 17);
            assert("--video_duration_limit_s"@.len() == 24);
            assert("--debug_log"@.len() == 11);
            assert("--play_only_recommendations"@.len() == 27);
            assert("--rank_piped_api_domains"@.len() == 24);
            assert("--rank_invidious_api_domains"@.len() == 28);
            assert("--help"@ != "--rank_invidious_api_domains"@);
            assert("--piped_api_domain_index"@ != "--rank_invidious_api_domains"@);
            assert("--shuffle_playlist"@ != "--rank_invidious_api_domains"@);
            assert("--invidious_api_domain_index"@[2] != "--rank_invidious_api_domains"@[2]);
            assert("--invidious_api_domain_index"@ != "--rank_invidious_api_domains"@);
            assert("--mpv_base_volume"@ != "--rank_invidious_api_domains"@);
            assert("--video_duration_limit_s"@ != "--rank_invidious_api_domains"@);
            assert("--debug_log"@ != "--rank_invidious_api_domains"@);
            assert("--play_only_recommendations"@ != "--rank_invidious_api_domains"@);
            assert("--rank_piped_api_domains"@ != "--rank_invidious_api_domains"@);
            assert(option_registered(options.options@, "--help"@, OptionType::PrintHelp, 0));
            assert(option_registered(options.options@, "--piped_api_domain_index"@, OptionType::SetPipedApiDomainIndex, 1));
            assert(option_registered(options.options@, "--shuffle_playlist"@, OptionType::SetShufflePlaylist, 1));
            assert(option_registered(options.options@, "--invidious_api_domain_index"@, OptionType::SetInvidiousApiDomainIndex, 1));
            assert(option_registered(options.options@, "--mpv_base_volume"@, OptionType::SetMpvBaseVolume, 1));
            assert(option_registered(options.options@, "--video_duration_limit_s"@, OptionType::SetVideoDurationLimit, 1));
            assert(option_registered(options.options@, "--debug_log"@, OptionType::SetDebugLog, 1));
            assert(option_registered(options.options@, "--play_only_recommendations"@, OptionType::SetPlayOnlyRecommendations, 1));
            assert(option_registered(options.options@, "--rank_piped_api_domains"@, OptionType::RankPipedApiDomains, 0));
            assert(option_registered(options.options@, "--rank_invidious_api_domains"@, OptionType::RankInvidiousApiDomains, 0));
        }
        options.add_option(
            OptionDefinition {
                name: String::from_str("--fetch_piped_api_domains"),
                option_type: OptionType::FetchPipedApiDomains,
                args: vec![],
            },
        );
        proof {
            reveal_strlit("--help");
            reveal_strlit("--piped_api_domain_index");
            reveal_strlit("--shuffle_playlist");
            reveal_strlit("--invidious_api_domain_index");
            reveal_strlit("--mpv_base_volume");
            reveal_strlit("--video_duration_limit_s");
            reveal_strlit("--debug_log");
            reveal_strlit("--play_only_recommendations");
            reveal_strlit("--rank_piped_api_domains");
            reveal_strlit("--rank_invidious_api_domains");
            reveal_strlit("--fetch_piped_api_domains");
            assert("--help"@.len() == 6);
            assert("--piped_api_domain_index"@.len() == 24);
            assert("--shuffle_playlist"@.len() == 18);
            assert("--invidious_api_domain_index"@.len() == 28);
            assert("--mpv_base_volume"@.len() == 17);
            assert("--video_duration_limit_s"@.len() == 24);
            assert("--debug_log"@.len() == 11);
            assert("--play_only_recommendations"@.len() == 27);
            assert("--rank_piped_api_domains"@.len() == 24);
            assert("--rank_invidious_api_domains"@.len() == 28);
            assert("--fetch_piped_api_domains"@.len() == 25);
            assert("--help"@ != "--fetch_piped_api_domains"@);
            assert("--piped_api_domain_index"@ != "--fetch_piped_api_domains"@);
            assert("--shuffle_playlist"@ != "--fetch_piped_api_domains"@);
            assert("--invidious_api_domain_index"@ != "--fetch_piped_api_domains"@);
            assert("--mpv_base_volume"@ != "--fetch_piped_api_domains"@);
            assert("--video_duration_limit_s"@ != "--fetch_piped_api_domains"@);
            assert("--debug_log"@ != "--fetch_piped_api_domains"@);
            assert("--play_only_recommendations"@ != "--fetch_piped_api_domains"@);
            assert("--rank_piped_api_domains"@ != "--fetch_piped_api_domains"@);
            assert("--rank_invidious_api_domains"@ != "--fetch_piped_api_domains"@);
            assert(option_registered(options.options@, "--help"@, OptionType::PrintHelp, 0));
            assert(option_registered(options.options@, "--piped_api_domain_index"@, OptionType::SetPipedApiDomainIndex, 1));
            assert(option_registered(options.options@, "--shuffle_playlist"@, OptionType::SetShufflePlaylist, 1));
            assert(option_registered(options.options@, "--invidious_api_domain_index"@, OptionType::SetInvidiousApiDomainIndex, 1));
            assert(option_registered(options.options@, "--mpv_base_volume"@, OptionType::SetMpvBaseVolume, 1));
            assert(option_registered(options.options@, "--video_duration_limit_s"@, OptionType::SetVideoDurationLimit, 1));
            assert(option_registered(options.options@, "--debug_log"@, OptionType::SetDebugLog, 1));
            assert(option_registered(options.options@, "--play_only_recommendations"@, OptionType::SetPlayOnlyRecommendations, 1));
            assert(option_registered(options.options@, "--rank_piped_api_domains"@, OptionType::RankPipedApiDomains, 0));
            assert(option_registered(options.options@, "--rank_invidious_api_domains"@, OptionType::RankInvidiousApiDomains, 0));
            assert(option_registered(options.options@, "--fetch_piped_api_domains"@, OptionType::FetchPipedApiDomains, 0));
        }
        options.add_option(
            OptionDefinition {
                name: String::from_str("--fetch_invidious_api_domains"),
                option_type: OptionType::FetchInvidiousApiDomains,
                args: vec![],
            },
        );
        proof {
            reveal_strlit("--help");
            reveal_strlit("--piped_api_domain_index");
            reveal_strlit("--shuffle_playlist");
            reveal_strlit("--invidious_api_domain_index");
            reveal_strlit("--mpv_base_volume");
            reveal_strlit("--video_duration_limit_s");
            reveal_strlit("--debug_log");
            reveal_strlit("--play_only_recommendations");
            reveal_strlit("--rank_piped_api_domains");
            reveal_strlit("--rank_invidious_api_domains");
            reveal_strlit("--fetch_piped_api_domains");
            reveal_strlit("--fetch_invidious_api_domains");
            assert("--help"@.len() == 6);
            assert("--piped_api_domain_index"@.len() == 24);
            assert("--shuffle_playlist"@.len() == 18);
            assert("--invidious_api_domain_index"@.len() == 28);
            assert("--mpv_base_volume"@.len() == 17);
            assert("--video_duration_limit_s"@.len() == 24);
            assert("--debug_log"@.len() == 11);
            assert("--play_only_recommendations"@.len() == 27);
            assert("--rank_piped_api_domains"@.len() == 24);
            assert("--rank_invidious_api_domains"@.len() == 28);
            assert("--fetch_piped_api_domains"@.len() == 25);
            assert("--fetch_invidious_api_domains"@.len() == 29);
            assert("--help"@ != "--fetch_invidious_api_domains"@);
            assert("--piped_api_domain_index"@ != "--fetch_invidious_api_domains"@);
            assert("--shuffle_playlist"@ != "--fetch_invidious_api_domains"@);
            assert("--invidious_api_domain_index"@ != "--fetch_invidious_api_domains"@);
            assert("--mpv_base_volume"@ != "--fetch_invidious_api_domains"@);
            assert("--video_duration_limit_s"@ != "--fetch_invidious_api_domains"@);
            assert("--debug_log"@ != "--fetch_invidious_api_domains"@);
            assert("--play_only_recommendations"@ != "--fetch_invidious_api_domains"@);
            assert("--rank_piped_api_domains"@ != "--fetch_invidious_api_domains"@);
            assert("--rank_invidious_api_domains"@ != "--fetch_invidious_api_domains"@);
            assert("--fetch_piped_api_domains"@ != "--fetch_invidious_api_domains"@);
            assert(option_registered(options.options@, "--help"@, OptionType::PrintHelp, 0));
            assert(option_registered(options.options@, "--piped_api_domain_index"@, OptionType::SetPipedApiDomainIndex, 1));
            assert(option_registered(options.options@, "--shuffle_playlist"@, OptionType::SetShufflePlaylist, 1));
            assert(option_registered(options.options@, "--invidious_api_domain_index"@, OptionType::SetInvidiousApiDomainIndex, 1));
            assert(option_registered(options.options@, "--mpv_base_volume"@, OptionType::SetMpvBaseVolume, 1));
            assert(option_registered(options.options@, "--video_duration_limit_s"@, OptionType::SetVideoDurationLimit, 1));
            assert(option_registered(options.options@, "--debug_log"@, OptionType::SetDebugLog, 1));
            assert(option_registered(options.options@, "--play_only_recommendations"@, OptionType::SetPlayOnlyRecommendations, 1));
            assert(option_registered(options.options@, "--rank_piped_api_domains"@, OptionType::RankPipedApiDomains, 0));
            assert(option_registered(options.options@, "--rank_invidious_api_domains"@, OptionType::RankInvidiousApiDomains, 0));
            assert(option_registered(options.options@, "--fetch_piped_api_domains"@, OptionType::FetchPipedApiDomains, 0));
            assert(option_registered(options.options@, "--fetch_invidious_api_domains"@, OptionType::FetchInvidiousApiDomains, 0));
        }
        options.add_option(
            OptionDefinition {
                name: String::from_str("--overwrite_config"),
                option_type: OptionType::OverwriteConfig,
                args: vec![],
            },
        );
        proof {
            reveal_strlit("--help");
            reveal_strlit("--piped_api_domain_index");
            reveal_strlit("--shuffle_playlist");
            reveal_strlit("--invidious_api_domain_index");
            reveal_strlit("--mpv_base_volume");
            reveal_strlit("--video_duration_limit_s");
            reveal_strlit("--debug_log");
            reveal_strlit("--play_only_recommendations");
            reveal_strlit("--rank_piped_api_domains");
            reveal_strlit("--rank_invidious_api_domains");
            reveal_strlit("--fetch_piped_api_domains");
            reveal_strlit("--fetch_invidious_api_domains");
            reveal_strlit("--overwrite_config");
            assert("--help"@.len() == 6);
            assert("--piped_api_domain_index"@.len() == 24);
            assert("--shuffle_playlist"@.len() == 18);
            assert("--invidious_api_domain_index"@.len() == 28);
            assert("--mpv_base_volume"@.len() == 17);
            assert("--video_duration_limit_s"@.len() == 24);
            assert("--debug_log"@.len() == 11);
            assert("--play_only_recommendations"@.len() == 27);
            assert("--rank_piped_api_domains"@.len() == 24);
            assert("--rank_invidious_api_domains"@.len() == 28);
            assert("--fetch_piped_api_domains"@.len() == 25);
            assert("--fetch_invidious_api_domains"@.len() == 29);
            assert("--overwrite_config"@.len() == 18);
            assert("--help"@ != "--overwrite_config"@);
            assert("--piped_api_domain_index"@ != "--overwrite_config"@);
            assert("--shuffle_playlist"@[2] != "--overwrite_config"@[2]);
            assert("--shuffle_playlist"@ != "--overwrite_config"@);
            assert("--invidious_api_domain_index"@ != "--overwrite_config"@);
            assert("--mpv_base_volume"@ != "--overwrite_config"@);
            assert("--video_duration_limit_s"@ != "--overwrite_config"@);
            assert("--debug_log"@ != "--overwrite_config"@);
            assert("--play_only_recommendations"@ != "--overwrite_config"@);
            assert("--rank_piped_api_domains"@ != "--overwrite_config"@);
            assert("--rank_invidious_api_domains"@ != "--overwrite_config"@);
            assert("--fetch_piped_api_domains"@ != "--overwrite_config"@);
            assert("--fetch_invidious_api_domains"@ != "--overwrite_config"@);
            assert(option_registered(options.options@, "--help"@, OptionType::PrintHelp, 0));
            assert(option_registered(options.options@, "--piped_api_domain_index"@, OptionType::SetPipedApiDomainIndex, 1));
            assert(option_registered(options.options@, "--shuffle_playlist"@, OptionType::SetShufflePlaylist, 1));
            assert(option_registered(options.options@, "--invidious_api_domain_index"@, OptionType::SetInvidiousApiDomainIndex, 1));
            assert(option_registered(options.options@, "--mpv_base_volume"@, OptionType::SetMpvBaseVolume, 1));
            assert(option_registered(options.options@, "--video_duration_limit_s"@, OptionType::SetVideoDurationLimit, 1));
            assert(option_registered(options.options@, "--debug_log"@, OptionType::SetDebugLog, 1));
            assert(option_registered(options.options@, "--play_only_recommendations"@, OptionType::SetPlayOnlyRecommendations, 1));
            assert(option_registered(options.options@, "--rank_piped_api_domains"@, OptionType::RankPipedApiDomains, 0));
            assert(option_registered(options.options@, "--rank_invidious_api_domains"@, OptionType::RankInvidiousApiDomains, 0));
            assert(option_registered(options.options@, "--fetch_piped_api_domains"@, OptionType::FetchPipedApiDomains, 0));
            assert(option_registered(options.options@, "--fetch_invidious_api_domains"@, OptionType::FetchInvidiousApiDomains, 0));
            assert(option_registered(options.options@, "--overwrite_config"@, OptionType::OverwriteConfig, 0));
        }
        options
    }

    /// Detaches a trailing track or playlist URL from the argument list,
    /// when the last argument looks like one and is not the program name.
    pub fn extract_user_input_url(args: Vec<String>) -> (r: (Vec<String>, Option<String>))
        ensures
            ({
                let takes = args@.len() > 1 && (crate::source::has_video_marker(
                    args@.last()@,
                ) || crate::source::has_playlist_marker(args@.last()@));
                if takes {
                    r.0@ == args@.drop_last() && (r.1 matches Some(u) && u == args@.last())
                } else {
                    r.0 == args && r.1 is None
                }
            }),
    {
        let mut args = args;
        if args.len() > 1 && Source::is_valid_source_path(args[args.len() - 1].as_str()) {
            let ghost orig = args@;
            let last = match args.pop() {
                Some(l) => l,
                None => vstd::pervasive::unreached(),
            };
            proof {
                assert(args@ =~= orig.drop_last());
            }
            (args, Some(last))
        } else {
            (args, None)
        }
    }

    /// Maps every argument to its option action, in order; the first
    /// argument that maps to nothing is an invalid option.
    pub fn preprocess_args(&self, args: &Vec<String>) -> (r: Result<Vec<OptionAction>, Error>)
        requires
            self.options.wf(),
        ensures
            r matches Ok(acts) ==> acts@.len() == args@.len() && forall|k: int|
                0 <= k < args@.len() ==> arg_maps_to(
                    self.options.options@,
                    (#[trigger] args@[k])@,
                    Some(acts@[k]),
                ),
            r matches Err(e) ==> e is InvalidOption && exists|k: int|
                0 <= k < args@.len() && arg_maps_to(
                    self.options.options@,
                    (#[trigger] args@[k])@,
                    Option::<OptionAction>::None,
                ),
    {
        let mut actions: Vec<OptionAction> = Vec::new();
        let mut k: usize = 0;
        while k < args.len()
            invariant
                self.options.wf(),
                k <= args@.len(),
                actions@.len() == k,
                forall|j: int|
                    0 <= j < k ==> arg_maps_to(
                        self.options.options@,
                        (#[trigger] args@[j])@,
                        Some(actions@[j]),
                    ),
            decreases args@.len() - k,
        {
            let action = self.options.map_option_str_to_action(args[k].as_str());
            match action {
                Some(action) => {
                    actions.push(action);
                },
                None => {
                    return Err(
                        Error::InvalidOption(
                            String::from_str("rustunes: '").concat(args[k].as_str()).concat(
                                "' is not a valid rustunes option.",
                            ),
                        ),
                    );
                },
            }
            k += 1;
        }
        Ok(actions)
    }

    /// The registered option name nearest the mistyped one by edit
    /// distance: the first name at the least distance under 255, or empty
    /// text when every name is at least that far away.
    #[verifier::rlimit(50)]
    #[verifier::loop_isolation(false)]
    pub fn find_suggestion(&self, invalid_arg: &str) -> (r: String)
        requires
            invalid_arg@.len() <= 255,
            forall|i: int|
                0 <= i < self.options.options@.len() ==> (#[trigger] self.options.options@[i]).0@.len()
                    <= 255,
        ensures
            ({
                let t = self.options.options@;
                ||| (r@ == Seq::<char>::empty() && forall|j: int|
                    0 <= j < t.len() ==> edit_dist(
                        invalid_arg@,
                        (#[trigger] t[j]).0@,
                        invalid_arg@.len(),
                        t[j].0@.len(),
                    ) >= 255)
                ||| (exists|i: int|
                    {
                        &&& 0 <= i < t.len()
                        &&& r@ == (#[trigger] t[i]).0@
                        &&& edit_dist(invalid_arg@, t[i].0@, invalid_arg@.len(), t[i].0@.len())
                            < 255
                        &&& (forall|j: int|
                            0 <= j < t.len() ==> edit_dist(
                                invalid_arg@,
                                t[i].0@,
                                invalid_arg@.len(),
                                t[i].0@.len(),
                            ) <= edit_dist(
                                invalid_arg@,
                                (#[trigger] t[j]).0@,
                                invalid_arg@.len(),
                                t[j].0@.len(),
                            ))
                    })
            }),
    {
        let mut min_lev_distances: u8 = 255;
        let mut suggestion = String::new();
        let ghost mut picked: int = -1;
        let mut i: usize = 0;
        while i < self.options.options.len()
            invariant
                invalid_arg@.len() <= 255,
                forall|w: int|
                    0 <= w < self.options.options@.len() ==> (
                    #[trigger] self.options.options@[w]).0@.len() <= 255,
                i <= self.options.options@.len(),
                picked >= -1,
                picked == -1 ==> min_lev_distances == 255 && suggestion@
                    == Seq::<char>::empty(),
                forall|j: int|
                    0 <= j < i && picked == -1 ==> edit_dist(
                        invalid_arg@,
                        (#[trigger] self.options.options@[j]).0@,
                        invalid_arg@.len(),
                        self.options.options@[j].0@.len(),
                    ) >= 255,
                picked >= 0 ==> picked < i,
                picked >= 0 ==> suggestion@ == self.options.options@[picked].0@,
                picked >= 0 ==> min_lev_distances == edit_dist(
                    invalid_arg@,
                    self.options.options@[picked].0@,
                    invalid_arg@.len(),
                    self.options.options@[picked].0@.len(),
                ),
                picked >= 0 ==> min_lev_distances < 255,
                forall|j: int|
                    0 <= j < i && picked >= 0 ==> min_lev_distances <= edit_dist(
                        invalid_arg@,
                        (#[trigger] self.options.options@[j]).0@,
                        invalid_arg@.len(),
                        self.options.options@[j].0@.len(),
                    ),
            decreases self.options.options@.len() - i,
        {
            let ghost min_top = min_lev_distances;
            let ghost picked_top = picked;
            let ghost i_top = i as int;
            let name = &self.options.options[i].0;
            let lev_dist = lev(invalid_arg, name.as_str());
            if lev_dist < min_lev_distances {
                min_lev_distances = lev_dist;
                suggestion = name.clone();
                proof {
                    picked = i as int;
                }
            }
            i += 1;
            proof {
                if picked >= 0 {
                    assert(min_lev_distances <= edit_dist(
                        invalid_arg@,
                        self.options.options@[i - 1].0@,
                        invalid_arg@.len(),
                        self.options.options@[i - 1].0@.len(),
                    ));
                    assert forall|j: int|
                        0 <= j < i implies min_lev_distances <= edit_dist(
                        invalid_arg@,
                        (#[trigger] self.options.options@[j]).0@,
                        invalid_arg@.len(),
                        self.options.options@[j].0@.len(),
                    ) by {
                        if j == i - 1 {
                            assert(self.options.options@[j].0@ == name@);
                        } else {
                            if picked_top == -1 {
                                assert(edit_dist(
                                    invalid_arg@,
                                    self.options.options@[j].0@,
                                    invalid_arg@.len(),
                                    self.options.options@[j].0@.len(),
                                ) >= 255);
                            } else {
                                assert(min_top <= edit_dist(
                                    invalid_arg@,
                                    self.options.options@[j].0@,
                                    invalid_arg@.len(),
                                    self.options.options@[j].0@.len(),
                                ));
                            }
                        }
                    }
                }
            }
        }
        suggestion
    }
}

} // verus!

verus! {

/// The help lines of the registered options, in registration order.
pub open spec fn option_help_texts(t: Seq<(String, OptionEntry)>) -> Seq<Seq<char>> {
    t.map_values(|e: (String, OptionEntry)| crate::commands::help_line(e.0@, e.1.args@))
}

impl OptionsRegistry {
    /// The help text: one line per registered option, sorted, joined with
    /// newlines.
    pub fn generate_help_str(&self) -> (r: String)
        ensures
            exists|sorted: Seq<String>|
                {
                    &&& crate::strutil::lex_sorted(sorted)
                    &&& crate::strutil::views_of(sorted).to_multiset() == option_help_texts(
                        self.options@,
                    ).to_multiset()
                    &&& r@ == crate::strutil::joined(crate::strutil::views_of(sorted), '\n')
                },
    {
        let mut lines: Vec<String> = Vec::new();
        let mut i: usize = 0;
        while i < self.options.len()
            invariant
                i <= self.options@.len(),
                crate::strutil::views_of(lines@) == option_help_texts(
                    self.options@.take(i as int),
                ),
            decreases self.options@.len() - i,
        {
            let line = crate::commands::build_help_line(
                self.options[i].0.as_str(),
                &self.options[i].1.args,
            );
        let ghost line_text = line@;
            lines.push(line);
            proof {
                let vs = crate::strutil::views_of(lines@);
                let ts = option_help_texts(self.options@.take(i + 1));
                assert(vs.len() == lines@.len());
                assert(option_help_texts(self.options@.take(i as int)).len() == i);
                assert(lines@.len() == i + 1);
                assert(ts.len() == self.options@.take(i + 1).len());
                assert(ts.len() == i + 1);
                assert forall|k: int| 0 <= k < i + 1 implies vs[k] == ts[k] by {
                    assert(self.options@.take(i + 1)[k] == self.options@[k]);
                    if k < i {
                        assert(crate::strutil::views_of(lines@.drop_last())[k]
                            == option_help_texts(self.options@.take(i as int))[k]);
                        assert(lines@.drop_last()[k] == lines@[k]);
                        assert(self.options@.take(i as int)[k] == self.options@[k]);
                    } else {
                        assert(vs[k] == line_text);
                    }
                }
                assert(vs =~= ts);
            }
            i += 1;
        }
        proof {
            assert(self.options@.take(self.options@.len() as int) =~= self.options@);
        }
        let sorted = crate::strutil::sort_lines(lines);
        crate::commands::join_lines(&sorted)
    }
}

} // verus!
