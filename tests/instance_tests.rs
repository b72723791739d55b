use eslauncher::instance::{
    Instance, InstanceMessage, InstanceSource, InstanceState, InstanceType, Operation,
};
use eslauncher::paths::join;

fn source() -> InstanceSource {
    InstanceSource { source_type: String::from("Continuous"), identifier: String::from("master") }
}

fn linux_instance() -> Instance {
    Instance::new(
        String::from("/games/es-dev"),
        String::from("endless-sky"),
        String::from("es-dev"),
        String::from("0.9.14"),
        InstanceType::Linux,
        source(),
    )
}

#[test]
fn archive_names_per_platform() {
    assert_eq!(InstanceType::MacOS.archive(), Some("mac"));
    assert_eq!(InstanceType::Windows.archive(), Some("win64"));
    assert_eq!(InstanceType::Linux.archive(), Some(".tar.gz"));
    assert_eq!(InstanceType::AppImage.archive(), Some(".AppImage"));
    assert_eq!(InstanceType::Unknown.archive(), None);
}

#[test]
fn executables_per_platform() {
    assert_eq!(
        InstanceType::MacOS.executable(),
        Some("Endless Sky.app/Contents/MacOS/Endless Sky")
    );
    assert_eq!(InstanceType::Windows.executable(), Some("EndlessSky.exe"));
    assert_eq!(InstanceType::Linux.executable(), Some("endless-sky"));
    assert_eq!(InstanceType::AppImage.executable(), Some("endless-sky.AppImage"));
    assert_eq!(InstanceType::Unknown.executable(), None);
}

#[test]
fn state_predicates() {
    assert!(InstanceState::Playing.is_playing());
    assert!(!InstanceState::Playing.is_ready());
    let w = InstanceState::Working { status: String::from("Updating") };
    assert!(w.is_working());
    assert!(!w.is_playing());
    assert!(InstanceState::Ready.is_ready());
    assert!(InstanceState::default().is_ready());
}

#[test]
fn new_instance_is_ready() {
    let i = linux_instance();
    assert!(i.state.is_ready());
    assert_eq!(i.path, "/games/es-dev");
    assert_eq!(i.executable, "endless-sky");
    assert_eq!(i.instance_type, InstanceType::Linux);
}

#[test]
fn play_moves_to_playing_and_schedules_launch() {
    let mut i = linux_instance();
    let op = i.update(InstanceMessage::Play(false));
    assert!(i.state.is_playing());
    match op {
        Some(Operation::Launch(req)) => {
            assert_eq!(req.path, "/games/es-dev");
            assert_eq!(req.executable, "/games/es-dev/endless-sky");
            assert_eq!(req.name, "es-dev");
            assert!(!req.debug);
        }
        other => panic!("unexpected {:?}", other),
    }
}

#[test]
fn debug_play_carries_flag() {
    let mut i = linux_instance();
    match i.update(InstanceMessage::Play(true)) {
        Some(Operation::Launch(req)) => assert!(req.debug),
        other => panic!("unexpected {:?}", other),
    }
}

#[test]
fn second_play_is_refused() {
    let mut i = linux_instance();
    assert!(i.update(InstanceMessage::Play(false)).is_some());
    assert!(i.update(InstanceMessage::Play(false)).is_none());
    assert!(i.update(InstanceMessage::Update).is_none());
    assert!(i.state.is_playing());
}

#[test]
fn second_update_is_refused() {
    let mut i = linux_instance();
    match i.update(InstanceMessage::Update) {
        Some(Operation::Update(rec)) => {
            assert_eq!(rec.path, "/games/es-dev");
            assert_eq!(rec.version, "0.9.14");
        }
        other => panic!("unexpected {:?}", other),
    }
    match &i.state {
        InstanceState::Working { status } => assert_eq!(status, "Updating"),
        other => panic!("unexpected {:?}", other),
    }
    assert!(i.update(InstanceMessage::Update).is_none());
    assert!(i.update(InstanceMessage::Play(true)).is_none());
    assert!(i.state.is_working());
}

#[test]
fn delete_only_while_ready() {
    let mut i = linux_instance();
    match i.update(InstanceMessage::Delete) {
        Some(Operation::Delete(p)) => assert_eq!(p, "/games/es-dev"),
        other => panic!("unexpected {:?}", other),
    }
    assert!(i.state.is_ready());
    i.update(InstanceMessage::Play(false));
    assert!(i.update(InstanceMessage::Delete).is_none());
}

#[test]
fn folder_is_offered_in_every_state() {
    let mut i = linux_instance();
    i.update(InstanceMessage::Play(false));
    match i.update(InstanceMessage::Folder) {
        Some(Operation::RevealFolder(p)) => assert_eq!(p, "/games/es-dev"),
        other => panic!("unexpected {:?}", other),
    }
    assert!(i.state.is_playing());
}

#[test]
fn state_changed_returns_to_ready() {
    let mut i = linux_instance();
    i.update(InstanceMessage::Update);
    assert!(i.update(InstanceMessage::StateChanged(InstanceState::Ready)).is_none());
    assert!(i.state.is_ready());
    assert!(i.update(InstanceMessage::Play(false)).is_some());
}

#[test]
fn view_of_ready_instance() {
    let i = linux_instance();
    let v = i.view();
    assert_eq!(v.name, "es-dev");
    assert_eq!(v.version_label, "Version: 0.9.14");
    assert_eq!(v.source_label, "Source: Continuous master");
    assert!(v.status.is_none());
    assert!(v.actions_enabled);
    assert!(v.folder_enabled);
}

#[test]
fn view_truncates_long_version() {
    let mut i = linux_instance();
    i.version = String::from("0123456789abcdefghijklmnopqrstuvwxyz");
    assert_eq!(i.view().version_label, "Version: 0123456789abcdefghijklmnopqrstuv");
}

#[test]
fn view_while_working_shows_status() {
    let mut i = linux_instance();
    i.update(InstanceMessage::Update);
    let v = i.view();
    assert_eq!(v.status, Some(String::from("Updating")));
    assert!(!v.actions_enabled);
    assert!(!v.folder_enabled);
}

#[test]
fn view_while_playing_disables_actions() {
    let mut i = linux_instance();
    i.update(InstanceMessage::Play(false));
    let v = i.view();
    assert!(v.status.is_none());
    assert!(!v.actions_enabled);
    assert!(v.folder_enabled);
}

#[test]
fn record_and_rebuild_keep_identity() {
    let mut i = linux_instance();
    i.update(InstanceMessage::Play(false));
    let rebuilt = Instance::from_record(i.record());
    assert_eq!(rebuilt.path, i.path);
    assert_eq!(rebuilt.name, i.name);
    assert_eq!(rebuilt.source.identifier, "master");
    assert!(rebuilt.state.is_ready());
}

#[test]
fn join_paths() {
    assert_eq!(join("/games/es-dev", "endless-sky"), "/games/es-dev/endless-sky");
    assert_eq!(join("/games/", "logs"), "/games/logs");
    assert_eq!(join("/games", "/opt/es"), "/opt/es");
    assert_eq!(join("", "logs"), "logs");
}
