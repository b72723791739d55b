use vstd::prelude::*;
use crate::paths::{join, path_join};

verus! {

/// The platform an installed build targets.
#[derive(Clone, Copy, Debug, PartialEq, Eq, Structural)]
pub enum InstanceType {
    MacOS,
    Windows,
    Linux,
    AppImage,
    Unknown,
}

/// The marker that identifies a release archive for this platform.
pub open spec fn archive_of(t: InstanceType) -> Option<Seq<char>> {
    match t {
        InstanceType::MacOS => Some("mac"@),
        InstanceType::Windows => Some("win64"@),
        InstanceType::Linux => Some(".tar.gz"@),
        InstanceType::AppImage => Some(".AppImage"@),
        InstanceType::Unknown => None,
    }
}

/// The launchable executable, relative to the install directory.
pub open spec fn executable_of(t: InstanceType) -> Option<Seq<char>> {
    match t {
        InstanceType::MacOS => Some("Endless Sky.app/Contents/MacOS/Endless Sky"@),
        InstanceType::Windows => Some("EndlessSky.exe"@),
        InstanceType::Linux => Some("endless-sky"@),
        InstanceType::AppImage => Some("endless-sky.AppImage"@),
        InstanceType::Unknown => None,
    }
}

pub open spec fn str_opt_view(o: Option<&str>) -> Option<Seq<char>> {
    match o {
        Some(s) => Some(s@),
        None => None,
    }
}

impl InstanceType {
    pub fn archive(self) -> (r: Option<&'static str>)
        ensures
            str_opt_view(r) == archive_of(self),
    {
        match self {
            InstanceType::MacOS => Some("mac"),
            InstanceType::Windows => Some("win64"),
            InstanceType::Linux => Some(".tar.gz"),
            InstanceType::AppImage => Some(".AppImage"),
            InstanceType::Unknown => None,
        }
    }

    pub fn executable(self) -> (r: Option<&'static str>)
        ensures
            str_opt_view(r) == executable_of(self),
    {
        match self {
            InstanceType::MacOS => Some("Endless Sky.app/Contents/MacOS/Endless Sky"),
            InstanceType::Windows => Some("EndlessSky.exe"),
            InstanceType::Linux => Some("endless-sky"),
            InstanceType::AppImage => Some("endless-sky.AppImage"),
            InstanceType::Unknown => None,
        }
    }
}


/// Where an instance was installed or last updated from.
#[derive(Clone, Debug)]
pub struct InstanceSource {
    pub source_type: String,
    pub identifier: String,
}

pub fn copy_source(s: &InstanceSource) -> (r: InstanceSource)
    ensures
        r == *s,
{
    InstanceSource { source_type: s.source_type.clone(), identifier: s.identifier.clone() }
}

/// The operational state of one instance. It is never persisted.
#[derive(Clone, Debug)]
pub enum InstanceState {
    Playing,
    Working { status: String },
    Ready,
}

/// The mathematical model of `InstanceState`.
pub enum StateModel {
    Playing,
    Working { status: Seq<char> },
    Ready,
}

impl View for InstanceState {
    type V = StateModel;

    open spec fn view(&self) -> StateModel {
        match self {
            InstanceState::Playing => StateModel::Playing,
            InstanceState::Working { status } => StateModel::Working { status: status@ },
            InstanceState::Ready => StateModel::Ready,
        }
    }
}

impl InstanceState {
    pub fn is_playing(&self) -> (r: bool)
        ensures
            r == (self@ is Playing),
    {
        matches!(self, InstanceState::Playing)
    }

    pub fn is_working(&self) -> (r: bool)
        ensures
            r == (self@ is Working),
    {
        matches!(self, InstanceState::Working { .. })
    }

    pub fn is_ready(&self) -> (r: bool)
        ensures
            r == (self@ is Ready),
    {
        matches!(self, InstanceState::Ready)
    }
}

impl Default for InstanceState {
    fn default() -> (r: InstanceState)
        ensures
            r@ is Ready,
    {
        InstanceState::Ready
    }
}

/// A command addressed to one instance.
#[derive(Clone, Debug)]
pub enum InstanceMessage {
    Play(bool),
    Update,
    Folder,
    Delete,
    StateChanged(InstanceState),
}

/// The mathematical model of `InstanceMessage`.
pub enum CommandModel {
    Play(bool),
    Update,
    Folder,
    Delete,
    StateChanged(StateModel),
}

impl View for InstanceMessage {
    type V = CommandModel;

    open spec fn view(&self) -> CommandModel {
        match self {
            InstanceMessage::Play(d) => CommandModel::Play(*d),
            InstanceMessage::Update => CommandModel::Update,
            InstanceMessage::Folder => CommandModel::Folder,
            InstanceMessage::Delete => CommandModel::Delete,
            InstanceMessage::StateChanged(s) => CommandModel::StateChanged(s@),
        }
    }
}

/// The status label shown while an update runs.
pub open spec fn updating_label() -> Seq<char> {
    "Updating"@
}

/// A command that starts work which may not overlap other such work on
/// the same instance; it is only accepted while the instance is `Ready`.
pub open spec fn is_gated(c: CommandModel) -> bool {
    c is Play || c is Update || c is Delete
}

/// A command issued by a user rather than reported by finished work.
pub open spec fn is_user_command(c: CommandModel) -> bool {
    !(c is StateChanged)
}

/// The state an instance is in after a command is applied.
pub open spec fn next_state(s: StateModel, c: CommandModel) -> StateModel {
    match c {
        CommandModel::StateChanged(t) => t,
        CommandModel::Play(_) => if s is Ready { StateModel::Playing } else { s },
        CommandModel::Update => if s is Ready {
            StateModel::Working { status: updating_label() }
        } else {
            s
        },
        _ => s,
    }
}

/// The kind of background work a command schedules, if any.
pub enum OpKind {
    Launch(bool),
    Update,
    RevealFolder,
    Delete,
}

pub open spec fn scheduled_op(s: StateModel, c: CommandModel) -> Option<OpKind> {
    if c is StateChanged || (is_gated(c) && !(s is Ready)) {
        None
    } else {
        match c {
            CommandModel::Play(d) => Some(OpKind::Launch(d)),
            CommandModel::Update => Some(OpKind::Update),
            CommandModel::Folder => Some(OpKind::RevealFolder),
            _ => Some(OpKind::Delete),
        }
    }
}

/// Work that changes the instance's state while it runs.
pub open spec fn is_state_changing(k: OpKind) -> bool {
    k is Launch || k is Update
}

/// The persisted identity and configuration of an instance.
#[derive(Clone, Debug)]
pub struct InstanceRecord {
    pub path: String,
    pub executable: String,
    pub name: String,
    pub version: String,
    pub instance_type: InstanceType,
    pub source: InstanceSource,
}

/// One installed build: its identity and configuration, and its
/// operational state.
#[derive(Clone, Debug)]
pub struct Instance {
    pub state: InstanceState,
    pub path: String,
    pub executable: String,
    pub name: String,
    pub version: String,
    pub instance_type: InstanceType,
    pub source: InstanceSource,
}

/// What the launcher needs to run an instance's executable.
#[derive(Clone, Debug)]
pub struct LaunchRequest {
    pub path: String,
    pub executable: String,
    pub name: String,
    pub debug: bool,
}

/// Background work scheduled by a command.
#[derive(Clone, Debug)]
pub enum Operation {
    Launch(LaunchRequest),
    Update(InstanceRecord),
    RevealFolder(String),
    Delete(String),
    /// Install a new instance; `appimage` asks for the AppImage build on
    /// platforms that offer one.
    Install { destination: String, name: String, appimage: bool },
}

impl Operation {
    pub open spec fn kind(&self) -> Option<OpKind> {
        match self {
            Operation::Launch(req) => Some(OpKind::Launch(req.debug)),
            Operation::Update(_) => Some(OpKind::Update),
            Operation::RevealFolder(_) => Some(OpKind::RevealFolder),
            Operation::Delete(_) => Some(OpKind::Delete),
            Operation::Install { .. } => None,
        }
    }
}

/// What the presentation layer shows for one instance.
#[derive(Clone, Debug)]
pub struct InstanceView {
    pub name: String,
    pub version_label: String,
    pub source_label: String,
    /// The status label while an update runs; the front end shows it
    /// instead of the play, debug, update and delete actions.
    pub status: Option<String>,
    /// Whether play, debug play, update and delete are offered.
    pub actions_enabled: bool,
    /// Whether revealing the folder is offered: in every state but while
    /// an update runs, when only the status is shown.
    pub folder_enabled: bool,
}

/// The longest version text shown, in characters.
pub const VERSION_SHOWN: usize = 32;

pub open spec fn shown_version(v: Seq<char>) -> Seq<char> {
    if v.len() <= VERSION_SHOWN {
        v
    } else {
        v.subrange(0, VERSION_SHOWN as int)
    }
}

/// `after` and `r` are what applying `c` to `before` gives: the identity
/// is kept, the state follows `next_state`, and the scheduled work is the
/// one `scheduled_op` names, carrying this instance's data.
pub open spec fn update_post(before: Instance, c: CommandModel, after: Instance, r: Option<
    Operation,
>) -> bool {
    &&& after.identity() == before.identity()
    &&& after.state@ == next_state(before.state@, c)
    &&& match r {
        Some(op) => op.kind() == scheduled_op(before.state@, c) && before.carries(op),
        None => scheduled_op(before.state@, c) is None,
    }
}

impl Instance {
    /// The persisted part of this instance.
    pub open spec fn identity(&self) -> InstanceRecord {
        InstanceRecord {
            path: self.path,
            executable: self.executable,
            name: self.name,
            version: self.version,
            instance_type: self.instance_type,
            source: self.source,
        }
    }

    /// Where this instance's executable lies.
    pub open spec fn executable_path(&self) -> Seq<char> {
        path_join(self.path@, self.executable@)
    }

    /// The work `op` stands for, as this instance schedules it.
    pub open spec fn carries(&self, op: Operation) -> bool {
        match op {
            Operation::Launch(req) => req.path == self.path && req.executable@
                == self.executable_path() && req.name == self.name,
            Operation::Update(rec) => rec == self.identity(),
            Operation::RevealFolder(p) => p == self.path,
            Operation::Delete(p) => p == self.path,
            Operation::Install { .. } => false,
        }
    }

    pub fn new(
        path: String,
        executable: String,
        name: String,
        version: String,
        instance_type: InstanceType,
        source: InstanceSource,
    ) -> (r: Instance)
        ensures
            r.state@ is Ready,
            r.path == path,
            r.executable == executable,
            r.name == name,
            r.version == version,
            r.instance_type == instance_type,
            r.source == source,
    {
        Instance {
            state: InstanceState::Ready,
            path,
            executable,
            name,
            version,
            instance_type,
            source,
        }
    }

    /// Rebuilds an instance from its persisted record; it starts `Ready`.
    pub fn from_record(rec: InstanceRecord) -> (r: Instance)
        ensures
            r.identity() == rec,
            r.state@ is Ready,
    {
        Instance::new(rec.path, rec.executable, rec.name, rec.version, rec.instance_type, rec.source)
    }

    /// The persisted part of this instance.
    pub fn record(&self) -> (r: InstanceRecord)
        ensures
            r == self.identity(),
    {
        InstanceRecord {
            path: self.path.clone(),
            executable: self.executable.clone(),
            name: self.name.clone(),
            version: self.version.clone(),
            instance_type: self.instance_type,
            source: copy_source(&self.source),
        }
    }

    /// The data shown for this instance: its labels, the status while work
    /// runs, and which actions are offered.
    pub fn view(&self) -> (r: InstanceView)
        ensures
            r.name == self.name,
            r.version_label@ == "Version: "@ + shown_version(self.version@),
            r.source_label@ == "Source: "@ + self.source.source_type@ + " "@
                + self.source.identifier@,
            match self.state@ {
                StateModel::Working { status } => r.status matches Some(s) && s@ == status,
                _ => r.status is None,
            },
            r.actions_enabled == (self.state@ is Ready),
            r.folder_enabled == !(self.state@ is Working),
    {
        let n = self.version.unicode_len();
        let shown = if n <= VERSION_SHOWN {
            self.version.as_str()
        } else {
            self.version.as_str().substring_char(0, VERSION_SHOWN)
        };
        let version_label = String::from_str("Version: ").concat(shown);
        let source_label = String::from_str("Source: ").concat(self.source.source_type.as_str()).concat(
            " ",
        ).concat(self.source.identifier.as_str());
        let status = match &self.state {
            InstanceState::Working { status } => Some(status.clone()),
            _ => None,
        };
        InstanceView {
            name: self.name.clone(),
            version_label,
            source_label,
            status,
            actions_enabled: self.state.is_ready(),
            folder_enabled: !self.state.is_working(),
        }
    }

    /// Applies a command: the state changes at once, and the background
    /// work to schedule, if any, is returned. Commands that would start
    /// work while other work runs on this instance are refused.
    pub fn update(&mut self, message: InstanceMessage) -> (r: Option<Operation>)
        ensures
            update_post(*old(self), message@, *final(self), r),
    {
        let ready = self.state.is_ready();
        match message {
            InstanceMessage::Play(debug) => {
                if !ready {
                    return None;
                }
                self.state = InstanceState::Playing;
                let req = LaunchRequest {
                    path: self.path.clone(),
                    executable: join(self.path.as_str(), self.executable.as_str()),
                    name: self.name.clone(),
                    debug,
                };
                Some(Operation::Launch(req))
            },
            InstanceMessage::Update => {
                if !ready {
                    return None;
                }
                let rec = self.record();
                let status = String::from_str("Updating");
                self.state = InstanceState::Working { status };
                Some(Operation::Update(rec))
            },
            InstanceMessage::Folder => Some(Operation::RevealFolder(self.path.clone())),
            InstanceMessage::Delete => {
                if !ready {
                    return None;
                }
                Some(Operation::Delete(self.path.clone()))
            },
            InstanceMessage::StateChanged(state) => {
                self.state = state;
                None
            },
        }
    }
}

} // verus!
