//! The configuration of each guild, kept in memory and mirrored to one JSON
//! file per guild (`config/<guild id>.json`), which the application reads
//! and writes.

use std::collections::HashMap;
use vstd::prelude::*;
use crate::text::{decimal, push_decimal, push_chars, push_range, chars_of};

verus! {

broadcast use vstd::std_specs::hash::group_hash_axioms;

/// The settings of one guild.
#[derive(Debug, Clone)]
pub struct GuildConfig {
    pub welcome_message_system: bool,
    pub welcome_message_id: u64,
    pub auto_role_system: bool,
    pub auto_role_id: u64,
    pub ticket_system: bool,
    pub ticket_channel: u64,
    pub ticket_category: u64,
    pub ticket_number: u64,
    pub moderator_roles: Vec<u64>,
}

/// The settings of one guild, as a value.
pub struct GuildConfigView {
    pub welcome_message_system: bool,
    pub welcome_message_id: u64,
    pub auto_role_system: bool,
    pub auto_role_id: u64,
    pub ticket_system: bool,
    pub ticket_channel: u64,
    pub ticket_category: u64,
    pub ticket_number: u64,
    pub moderator_roles: Seq<u64>,
}

impl View for GuildConfig {
    type V = GuildConfigView;

    open spec fn view(&self) -> GuildConfigView {
        GuildConfigView {
            welcome_message_system: self.welcome_message_system,
            welcome_message_id: self.welcome_message_id,
            auto_role_system: self.auto_role_system,
            auto_role_id: self.auto_role_id,
            ticket_system: self.ticket_system,
            ticket_channel: self.ticket_channel,
            ticket_category: self.ticket_category,
            ticket_number: self.ticket_number,
            moderator_roles: self.moderator_roles@,
        }
    }
}

/// The settings of a guild that has none stored: every system off, every id
/// zero, no ticket yet and no moderator role.
pub open spec fn default_config_view() -> GuildConfigView {
    GuildConfigView {
        welcome_message_system: false,
        welcome_message_id: 0,
        auto_role_system: false,
        auto_role_id: 0,
        ticket_system: false,
        ticket_channel: 0,
        ticket_category: 0,
        ticket_number: 0,
        moderator_roles: Seq::empty(),
    }
}

/// The settings of a guild that has none stored.
pub fn default_config() -> (config: GuildConfig)
    ensures
        config@ == default_config_view(),
{
    GuildConfig {
        welcome_message_system: false,
        welcome_message_id: 0,
        auto_role_system: false,
        auto_role_id: 0,
        ticket_system: false,
        ticket_channel: 0,
        ticket_category: 0,
        ticket_number: 0,
        moderator_roles: Vec::new(),
    }
}

impl GuildConfig {
    /// An independent copy of these settings.
    pub fn duplicate(&self) -> (copy: GuildConfig)
        ensures
            copy@ == self@,
    {
        let roles = self.moderator_roles.clone();
        assert(roles@ =~= self.moderator_roles@);
        GuildConfig {
            welcome_message_system: self.welcome_message_system,
            welcome_message_id: self.welcome_message_id,
            auto_role_system: self.auto_role_system,
            auto_role_id: self.auto_role_id,
            ticket_system: self.ticket_system,
            ticket_channel: self.ticket_channel,
            ticket_category: self.ticket_category,
            ticket_number: self.ticket_number,
            moderator_roles: roles,
        }
    }
}

/// Why the file of a guild's settings could not be read or written.
#[derive(Debug, Clone, Copy, PartialEq, Eq, Structural)]
pub enum ConfigError {
    /// The file system refused the operation.
    Io,
    /// The file did not hold settings in the expected JSON form.
    Format,
}

/// What the application found where a guild's settings file should be.
pub enum ConfigFile {
    /// No file exists yet.
    Missing,
    /// A file exists; this is what reading and parsing it gave.
    Found(Result<GuildConfig, ConfigError>),
}

/// The settings a map of stored settings gives for a guild: the stored ones,
/// or the defaults where none are stored.
pub open spec fn config_of(configs: Map<u64, GuildConfigView>, guild_id: u64) -> GuildConfigView {
    if configs.contains_key(guild_id) {
        configs[guild_id]
    } else {
        default_config_view()
    }
}

/// The settings of every guild that has some, in memory.
pub struct ConfigStore {
    configs: HashMap<u64, GuildConfig>,
}

impl View for ConfigStore {
    type V = Map<u64, GuildConfigView>;

    closed spec fn view(&self) -> Map<u64, GuildConfigView> {
        self.configs@.map_values(|c: GuildConfig| c@)
    }
}

impl ConfigStore {
    /// A store that holds no settings.
    pub fn new() -> (store: ConfigStore)
        ensures
            store@ == Map::<u64, GuildConfigView>::empty(),
    {
        let store = ConfigStore { configs: HashMap::new() };
        assert(store@ =~= Map::<u64, GuildConfigView>::empty());
        store
    }

    /// The stored settings, by guild id.
    pub fn configs(&self) -> (configs: &HashMap<u64, GuildConfig>)
        ensures
            configs@.map_values(|c: GuildConfig| c@) == self@,
    {
        &self.configs
    }

    /// The settings of a guild: the stored ones, or the defaults.
    pub fn get_config(&self, guild_id: u64) -> (config: GuildConfig)
        ensures
            config@ == config_of(self@, guild_id),
    {
        match self.configs.get(&guild_id) {
            Some(config) => config.duplicate(),
            None => default_config(),
        }
    }

    /// Records the settings of a guild once the application has tried to
    /// write them to the guild's file: stored where the write succeeded
    /// (`saved` is `Ok`), otherwise the store is left as it was and the
    /// write's error is returned.
    pub fn set_config(
        &mut self,
        guild_id: u64,
        config: GuildConfig,
        saved: Result<(), ConfigError>,
    ) -> (result: Result<(), ConfigError>)
        ensures
            result == saved,
            saved is Ok ==> final(self)@ == old(self)@.insert(guild_id, config@),
            saved is Err ==> final(self)@ == old(self)@,
    {
        if saved.is_ok() {
            let ghost before = self@;
            let ghost value = config@;
            self.configs.insert(guild_id, config);
            assert(self@ =~= before.insert(guild_id, value));
        }
        saved
    }

    /// Loads the settings of a guild at start-up from what the application
    /// found on disk. A file that was read and parsed replaces what is
    /// stored; a file that could not be read leaves the store as it was.
    /// Where there is no file, the store is left as it was and the defaults
    /// are returned: the application writes them and records them with
    /// `set_config`.
    pub fn init_config_file(&mut self, guild_id: u64, file: ConfigFile) -> (to_save: Option<
        GuildConfig,
    >)
        ensures
            match file {
                ConfigFile::Missing => {
                    &&& final(self)@ == old(self)@
                    &&& to_save matches Some(c) && c@ == default_config_view()
                },
                ConfigFile::Found(Ok(c)) => {
                    &&& final(self)@ == old(self)@.insert(guild_id, c@)
                    &&& to_save is None
                },
                ConfigFile::Found(Err(_)) => {
                    &&& final(self)@ == old(self)@
                    &&& to_save is None
                },
            },
    {
        match file {
            ConfigFile::Missing => Some(default_config()),
            ConfigFile::Found(Ok(config)) => {
                let _ = self.set_config(guild_id, config, Ok(()));
                None
            },
            ConfigFile::Found(Err(_)) => None,
        }
    }
}

/// Reading a guild's settings right after recording them gives what was
/// recorded.
pub proof fn lemma_read_after_write(
    configs: Map<u64, GuildConfigView>,
    guild_id: u64,
    config: GuildConfigView,
)
    ensures
        config_of(configs.insert(guild_id, config), guild_id) == config,
{
}

/// Recording the settings of one guild leaves those of every other guild as
/// they were.
pub proof fn lemma_write_leaves_other_guilds(
    configs: Map<u64, GuildConfigView>,
    guild_id: u64,
    config: GuildConfigView,
    other: u64,
)
    requires
        other != guild_id,
    ensures
        config_of(configs.insert(guild_id, config), other) == config_of(configs, other),
{
}

/// Loading a guild's settings a second time, when the file gives back what
/// the first load found or wrote, leaves the store as the first load did:
/// the first load records `loaded` (read from the file, or the defaults
/// written where there was none), and recording it again changes nothing.
pub proof fn lemma_second_load_changes_nothing(
    configs: Map<u64, GuildConfigView>,
    guild_id: u64,
    loaded: GuildConfigView,
)
    ensures
        configs.insert(guild_id, loaded).insert(guild_id, loaded) == configs.insert(
            guild_id,
            loaded,
        ),
        config_of(configs.insert(guild_id, loaded), guild_id) == loaded,
{
    assert(configs.insert(guild_id, loaded).insert(guild_id, loaded) =~= configs.insert(
        guild_id,
        loaded,
    ));
}

/// A guild whose settings were never recorded reads as the defaults.
pub proof fn lemma_unknown_guild_reads_defaults(configs: Map<u64, GuildConfigView>, guild_id: u64)
    requires
        !configs.contains_key(guild_id),
    ensures
        config_of(configs, guild_id) == default_config_view(),
{
}

/// The path of a guild's settings file: `config/<guild id>.json`.
pub open spec fn config_path_text(guild_id: u64) -> Seq<char> {
    seq!['c', 'o', 'n', 'f', 'i', 'g', '/'] + decimal(guild_id as nat) + seq![
        '.',
        'j',
        's',
        'o',
        'n',
    ]
}

/// The path of a guild's settings file.
pub fn config_path(guild_id: u64) -> (path: String)
    ensures
        path@ == config_path_text(guild_id),
{
    let mut path = String::new();
    push_chars(&mut path, &['c', 'o', 'n', 'f', 'i', 'g', '/']);
    push_decimal(&mut path, guild_id as u128);
    push_chars(&mut path, &['.', 'j', 's', 'o', 'n']);
    path
}

/// The position of the last `c` in `s`, if any.
pub open spec fn last_pos(s: Seq<char>, c: char) -> Option<int>
    decreases s.len(),
{
    if s.len() == 0 {
        None
    } else if s.last() == c {
        Some(s.len() - 1)
    } else {
        last_pos(s.drop_last(), c)
    }
}

/// The directory part of a path: what stands before its last `/`, as
/// `path.rsplit_once('/')` splits it; none where the path holds no `/`.
pub open spec fn parent_dir(path: Seq<char>) -> Option<Seq<char>> {
    match last_pos(path, '/') {
        Some(i) => Some(path.subrange(0, i)),
        None => None,
    }
}

/// The directory that must exist before a settings file can be written.
pub fn config_dir(path: &str) -> (dir: Option<String>)
    ensures
        match dir {
            Some(d) => parent_dir(path@) == Some(d@),
            None => parent_dir(path@) is None,
        },
{
    let chars = chars_of(path);
    let mut i: usize = chars.len();
    assert(path@.subrange(0, i as int) =~= path@);
    while i > 0
        invariant
            chars@ == path@,
            i <= chars@.len(),
            last_pos(path@, '/') == last_pos(path@.subrange(0, i as int), '/'),
        decreases i,
    {
        assert(path@.subrange(0, i as int).drop_last() =~= path@.subrange(0, i - 1));
        if chars[i - 1] == '/' {
            let mut dir = String::new();
            push_range(&mut dir, &chars, 0, i - 1);
            return Some(dir);
        }
        i = i - 1;
    }
    None
}

} // verus!
