//! The persisted configuration container, its default contents, and the
//! mutation operations that edit one in memory. Reading and writing the
//! file itself (and its TOML form) is the caller's job; every function here
//! is a pure transformation with an exact contract.

use vstd::prelude::*;

use crate::model::{Color, Priority, Reminder, Settings};

verus! {

/// The persisted unit. The global config owns the master priority list and
/// the registry of local config paths (`config_paths`); local configs own
/// reminders only. `path` is never persisted: it is stamped with the file's
/// own location on load and is required before any write-back.
pub struct ConfigFile {
    pub config_paths: Vec<String>,
    pub priorities: Vec<Priority>,
    pub reminders: Vec<Reminder>,
    pub settings: Settings,
    pub path: Option<String>,
}

/// The error kinds of the library. Every one is fatal to the operation that
/// raises it; nothing is retried or degraded.
#[derive(Clone, Copy, PartialEq, Eq, Structural, Debug)]
pub enum RmndError {
    /// A file could not be read or written for a reason other than absence.
    IoError,
    /// A config file exists but its bytes do not parse into the schema.
    CorruptConfig,
    /// Something that is not a regular file occupies an expected config path.
    PathConflict,
    /// A referenced priority name is not in the global priority list.
    UnknownPriority,
    /// No local config was found and the global one is missing too.
    UnresolvedScope,
}

impl RmndError {
    /// A short description for the display layer.
    pub fn message(&self) -> (r: String)
        ensures
            *self is IoError ==> r@ == "the config file could not be read or written"@,
            *self is CorruptConfig ==> r@ == "the config file exists but is corrupted"@,
            *self is PathConflict ==> r@
                == "something that is not a regular file occupies the config path"@,
            *self is UnknownPriority ==> r@ == "no priority with that name exists"@,
            *self is UnresolvedScope ==> r@ == "no config file could be resolved"@,
    {
        match self {
            RmndError::IoError => "the config file could not be read or written".to_owned(),
            RmndError::CorruptConfig => "the config file exists but is corrupted".to_owned(),
            RmndError::PathConflict => (
            "something that is not a regular file occupies the config path").to_owned(),
            RmndError::UnknownPriority => "no priority with that name exists".to_owned(),
            RmndError::UnresolvedScope => "no config file could be resolved".to_owned(),
        }
    }
}

impl ConfigFile {
    /// The content synthesized for a missing global config: one seeded
    /// priority named `Critical` (red), one seeded reminder, empty settings,
    /// no registered local configs.
    pub fn default_global_config() -> (r: Self)
        ensures
            r.config_paths@.len() == 0,
            r.priorities@.len() == 1,
            r.priorities@[0].name@ == "Critical"@,
            r.priorities@[0].id@ == "0"@,
            r.priorities@[0].color == Color::Red,
            r.reminders@.len() == 1,
            r.reminders@[0].priority@ == "Critical"@,
            r.reminders@[0].author@ == "John Doe, johndoe, johndoe@gmail.com"@,
            r.reminders@[0].text@ == "This is a global critical reminder!"@,
            r.settings.name is None,
            r.settings.username is None,
            r.settings.email is None,
            r.path is None,
    {
        let mut priorities: Vec<Priority> = Vec::new();
        priorities.push(
            Priority {
                name: "Critical".to_owned(),
                id: "0".to_owned(),
                color: Color::Red,
            },
        );
        let mut reminders: Vec<Reminder> = Vec::new();
        reminders.push(
            Reminder {
                priority: "Critical".to_owned(),
                author: "John Doe, johndoe, johndoe@gmail.com".to_owned(),
                text: "This is a global critical reminder!".to_owned(),
            },
        );
        ConfigFile {
            config_paths: Vec::new(),
            priorities,
            reminders,
            settings: Settings { name: None, username: None, email: None },
            path: None,
        }
    }

    /// The content synthesized for a freshly initialized local config: no
    /// priorities of its own (priorities come solely from the global
    /// config), one seeded reminder, empty settings.
    pub fn default_local_config() -> (r: Self)
        ensures
            r.config_paths@.len() == 0,
            r.priorities@.len() == 0,
            r.reminders@.len() == 1,
            r.reminders@[0].priority@ == "Critical"@,
            r.reminders@[0].author@ == "John Doe, johndoe, johndoe@gmail.com"@,
            r.reminders@[0].text@ == "This is a local critical reminder!"@,
            r.settings.name is None,
            r.settings.username is None,
            r.settings.email is None,
            r.path is None,
    {
        let mut reminders: Vec<Reminder> = Vec::new();
        reminders.push(
            Reminder {
                priority: "Critical".to_owned(),
                author: "John Doe, johndoe, johndoe@gmail.com".to_owned(),
                text: "This is a local critical reminder!".to_owned(),
            },
        );
        ConfigFile {
            config_paths: Vec::new(),
            priorities: Vec::new(),
            reminders,
            settings: Settings { name: None, username: None, email: None },
            path: None,
        }
    }
}

/// Stamps a just-deserialized config with the location it was loaded from,
/// leaving every persisted field as it was. A load is only complete once
/// this has run: `path` is what a later write-back targets.
pub fn load_local_config(config: ConfigFile, path: String) -> (r: ConfigFile)
    ensures
        r.path == Some(path),
        r.config_paths == config.config_paths,
        r.priorities == config.priorities,
        r.reminders == config.reminders,
        r.settings == config.settings,
{
    let mut stamped = config;
    stamped.path = Some(path);
    stamped
}

/// Some priority in `ps` is named `name`.
pub open spec fn has_priority(ps: Seq<Priority>, name: Seq<char>) -> bool {
    exists|i: int| 0 <= i < ps.len() && (#[trigger] ps[i].name)@ == name
}

/// Index of the first priority named `name`, or `None` when no priority has
/// that name. Lookup is by name: the reference from a reminder to its
/// priority is weak and may dangle, so read paths must treat `None` as a
/// display-time degradation, not a crash.
pub fn find_priority(priorities: &Vec<Priority>, name: &String) -> (r: Option<usize>)
    ensures
        match r {
            Some(k) => {
                &&& k < priorities@.len()
                &&& priorities@[k as int].name@ == name@
                &&& forall|j: int| 0 <= j < k ==> (#[trigger] priorities@[j].name)@ != name@
            },
            None => !has_priority(priorities@, name@),
        },
{
    let mut i: usize = 0;
    while i < priorities.len()
        invariant
            0 <= i <= priorities.len(),
            forall|j: int| 0 <= j < i ==> (#[trigger] priorities@[j].name)@ != name@,
        decreases priorities.len() - i,
    {
        if priorities[i].name == *name {
            return Some(i);
        }
        i += 1;
    }
    None
}

/// Appends a reminder to `target` after resolving `priority_name` against
/// the global priority list (local configs never define their own). An
/// unknown name is fatal to the operation and leaves `target` untouched, so
/// nothing half-done can be written back.
pub fn add_reminder(
    target: &mut ConfigFile,
    global_priorities: &Vec<Priority>,
    text: String,
    priority_name: String,
    author: String,
) -> (r: Result<(), RmndError>)
    ensures
        r is Ok <==> has_priority(global_priorities@, priority_name@),
        r is Ok ==> final(target).reminders@ == old(target).reminders@.push(
            (Reminder { priority: priority_name, author, text }),
        ),
        r is Ok ==> {
            &&& final(target).config_paths == old(target).config_paths
            &&& final(target).priorities == old(target).priorities
            &&& final(target).settings == old(target).settings
            &&& final(target).path == old(target).path
        },
        r is Err ==> r == Result::<(), RmndError>::Err(RmndError::UnknownPriority)
            && *final(target) == *old(target),
{
    match find_priority(global_priorities, &priority_name) {
        Some(_) => {
            target.reminders.push(Reminder { priority: priority_name, author, text });
            Ok(())
        },
        None => Err(RmndError::UnknownPriority),
    }
}

/// Appends a priority named `name` with the given color to the global
/// config. The id is the `"0"` placeholder; name uniqueness is not
/// enforced, matching the persisted format's tolerance of duplicates.
pub fn add_priority(global: &mut ConfigFile, name: String, color: Color)
    ensures
        ({
            let added = final(global).priorities@.last();
            &&& final(global).priorities@ == old(global).priorities@.push(added)
            &&& added.name == name
            &&& added.id@ == "0"@
            &&& added.color == color
        }),
        final(global).config_paths == old(global).config_paths,
        final(global).reminders == old(global).reminders,
        final(global).settings == old(global).settings,
        final(global).path == old(global).path,
{
    let added = Priority::new(name, "0".to_owned(), color);
    global.priorities.push(added);
}

/// `add_reminder` for the global scope, where the target config and the
/// owner of the priority list are the same file.
pub fn add_reminder_global(
    global: &mut ConfigFile,
    text: String,
    priority_name: String,
    author: String,
) -> (r: Result<(), RmndError>)
    ensures
        r is Ok <==> has_priority(old(global).priorities@, priority_name@),
        r is Ok ==> final(global).reminders@ == old(global).reminders@.push(
            (Reminder { priority: priority_name, author, text }),
        ),
        r is Ok ==> {
            &&& final(global).config_paths == old(global).config_paths
            &&& final(global).priorities == old(global).priorities
            &&& final(global).settings == old(global).settings
            &&& final(global).path == old(global).path
        },
        r is Err ==> r == Result::<(), RmndError>::Err(RmndError::UnknownPriority)
            && *final(global) == *old(global),
{
    match find_priority(&global.priorities, &priority_name) {
        Some(_) => {
            global.reminders.push(Reminder { priority: priority_name, author, text });
            Ok(())
        },
        None => Err(RmndError::UnknownPriority),
    }
}

/// The location a write-back of `config` targets. `None` means the config
/// was never stamped with a load location; persisting it then is a
/// programming-contract violation, which the caller treats as fatal.
pub fn persist_target(config: &ConfigFile) -> (r: Option<&String>)
    ensures
        match r {
            Some(p) => config.path == Some(*p),
            None => config.path is None,
        },
{
    match &config.path {
        Some(p) => Some(p),
        None => None,
    }
}

/// The confirmation answer the interactive layer collected from the user.
#[derive(Clone, Copy, PartialEq, Eq, Structural, Debug)]
pub enum Decision {
    Allow,
    Deny,
}

/// What registering a local config decided, and so what the caller must
/// still do on disk.
#[derive(Clone, Copy, PartialEq, Eq, Structural, Debug)]
pub enum RegisterOutcome {
    /// The path was already in the registry; nothing changed.
    AlreadyRegistered,
    /// An unregistered config file exists at the path and the user declined
    /// to adopt it; nothing changed.
    Declined,
    /// An existing config file was adopted into the registry; the caller
    /// persists the global config.
    Registered,
    /// No file exists at the path: it was added to the registry and the
    /// caller writes default local content there, then persists the global
    /// config.
    Created,
}

/// Some registry entry equals `p`.
pub open spec fn has_path(paths: Seq<String>, p: Seq<char>) -> bool {
    exists|i: int| 0 <= i < paths.len() && (#[trigger] paths[i])@ == p
}

/// The init operation's core: registers the local config file at
/// `local_path` into the global registry. `file_exists` says whether a file
/// already sits at that path; adopting such a file needs the interactive
/// layer's `decision`. The caller performs the writes the outcome asks for.
pub fn register_local(
    global: &mut ConfigFile,
    local_path: String,
    file_exists: bool,
    decision: Decision,
) -> (r: RegisterOutcome)
    ensures
        has_path(old(global).config_paths@, local_path@) ==> r
            == RegisterOutcome::AlreadyRegistered && *final(global) == *old(global),
        !has_path(old(global).config_paths@, local_path@) && file_exists && decision
            == Decision::Deny ==> r == RegisterOutcome::Declined && *final(global) == *old(global),
        !has_path(old(global).config_paths@, local_path@) && (!file_exists || decision
            == Decision::Allow) ==> {
            &&& final(global).config_paths@ == old(global).config_paths@.push(local_path)
            &&& final(global).priorities == old(global).priorities
            &&& final(global).reminders == old(global).reminders
            &&& final(global).settings == old(global).settings
            &&& final(global).path == old(global).path
            &&& r == if file_exists {
                RegisterOutcome::Registered
            } else {
                RegisterOutcome::Created
            }
        },
{
    let mut i: usize = 0;
    while i < global.config_paths.len()
        invariant
            0 <= i <= global.config_paths.len(),
            forall|j: int| 0 <= j < i ==> (#[trigger] global.config_paths@[j])@ != local_path@,
        decreases global.config_paths.len() - i,
    {
        if global.config_paths[i] == local_path {
            return RegisterOutcome::AlreadyRegistered;
        }
        i += 1;
    }
    if file_exists {
        match decision {
            Decision::Deny => RegisterOutcome::Declined,
            Decision::Allow => {
                global.config_paths.push(local_path);
                RegisterOutcome::Registered
            },
        }
    } else {
        global.config_paths.push(local_path);
        RegisterOutcome::Created
    }
}

} // verus!
