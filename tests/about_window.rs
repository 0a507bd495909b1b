use wenyan_rev::{about_window_config, AboutAction, AboutController, AboutEvent, AboutState, WindowConfig};

/// A host double: it knows which windows exist and records every creation request.
struct StubHost {
    windows: Vec<String>,
    requests: Vec<WindowConfig>,
    failure: Option<String>,
    log: Vec<String>,
}

impl StubHost {
    fn new() -> StubHost {
        StubHost { windows: Vec::new(), requests: Vec::new(), failure: None, log: Vec::new() }
    }

    fn has_window(&self, label: &str) -> bool {
        self.windows.iter().any(|w| w == label)
    }

    fn perform(&mut self, controller: &mut AboutController, action: AboutAction) {
        match action {
            AboutAction::CreateWindow(config) => {
                self.requests.push(config.clone());
                let reply = match &self.failure {
                    None => {
                        self.windows.push(config.label.clone());
                        AboutEvent::Created
                    }
                    Some(e) => AboutEvent::CreationFailed(e.clone()),
                };
                let next = controller.handle(&reply);
                self.perform(controller, next);
            }
            AboutAction::Log(line) => self.log.push(line),
            AboutAction::Nothing => {}
        }
    }

    fn open_about(&mut self, controller: &mut AboutController) {
        let present = self.has_window("about");
        let action = controller.handle(&AboutEvent::OpenAbout { about_exists: present });
        self.perform(controller, action);
    }
}

fn assert_about_config(config: &WindowConfig) {
    assert_eq!(config.label, "about");
    assert_eq!(config.path, "about.html");
    assert_eq!(config.title, "关于 文颜-rev");
    assert_eq!(config.width, 500);
    assert_eq!(config.height, 350);
    assert!(!config.resizable);
    assert!(!config.minimizable);
    assert!(!config.maximizable);
    assert!(config.centered);
}

#[test]
fn new_controller_starts_absent() {
    assert_eq!(AboutController::new().state(), AboutState::Absent);
}

#[test]
fn about_window_config_is_fixed() {
    assert_about_config(&about_window_config());
}

#[test]
fn single_open_about_creates_one_window() {
    let mut host = StubHost::new();
    let mut controller = AboutController::new();
    host.open_about(&mut controller);
    assert_eq!(host.requests.len(), 1);
    assert_about_config(&host.requests[0]);
    assert_eq!(controller.state(), AboutState::Present);
    assert!(host.log.is_empty());
}

#[test]
fn two_quick_open_about_events_create_once() {
    let mut host = StubHost::new();
    let mut controller = AboutController::new();
    host.open_about(&mut controller);
    host.open_about(&mut controller);
    assert_eq!(host.requests.len(), 1);
    assert_eq!(host.windows.len(), 1);
}

#[test]
fn many_open_about_events_create_only_on_the_first() {
    let mut host = StubHost::new();
    let mut controller = AboutController::new();
    host.open_about(&mut controller);
    assert_eq!(host.requests.len(), 1);
    for _ in 0..6 {
        host.open_about(&mut controller);
    }
    assert_eq!(host.requests.len(), 1);
}

#[test]
fn existing_about_window_blocks_creation() {
    let mut host = StubHost::new();
    host.windows.push(String::from("about"));
    let mut controller = AboutController::new();
    for _ in 0..4 {
        host.open_about(&mut controller);
    }
    assert!(host.requests.is_empty());
    assert_eq!(controller.state(), AboutState::Present);
}

#[test]
fn open_about_with_existing_window_does_nothing() {
    let mut controller = AboutController::new();
    let action = controller.handle(&AboutEvent::OpenAbout { about_exists: true });
    assert!(matches!(action, AboutAction::Nothing));
    assert_eq!(controller.state(), AboutState::Present);
}

#[test]
fn failed_creation_stays_absent_and_retries_once() {
    let mut host = StubHost::new();
    host.failure = Some(String::from("asset missing"));
    let mut controller = AboutController::new();
    host.open_about(&mut controller);
    assert_eq!(host.requests.len(), 1);
    assert_eq!(controller.state(), AboutState::Absent);
    assert_eq!(host.log, vec![String::from("Failed to create about window: asset missing")]);
    host.failure = None;
    host.open_about(&mut controller);
    assert_eq!(host.requests.len(), 2);
    assert_eq!(controller.state(), AboutState::Present);
    host.open_about(&mut controller);
    assert_eq!(host.requests.len(), 2);
}

#[test]
fn creation_failure_logs_the_host_error() {
    let mut controller = AboutController::new();
    controller.handle(&AboutEvent::OpenAbout { about_exists: false });
    let action = controller.handle(&AboutEvent::CreationFailed(String::from("no window")));
    match action {
        AboutAction::Log(line) => assert_eq!(line, "Failed to create about window: no window"),
        _ => panic!("expected a log line"),
    }
    assert_eq!(controller.state(), AboutState::Absent);
}

#[test]
fn closed_about_window_is_built_again() {
    let mut host = StubHost::new();
    let mut controller = AboutController::new();
    host.open_about(&mut controller);
    host.windows.clear();
    host.open_about(&mut controller);
    assert_eq!(host.requests.len(), 2);
    assert_about_config(&host.requests[1]);
}
