use crit::command::CommandOutput;
use crit::error::CritError;
use crit::pattern::Pattern;
use crit::reaper::{clean, container_ids, container_images, container_pattern, CleanAction, CleanEvent};

const PS: &str = "CONTAINER ID   IMAGE                                  COMMAND   STATUS\n\
0123456789ab   ghcr.io/cross-rs/x86_64-unknown-linux-gnu:main   \"sh\"   Exited (0)\n\
fedcba987654   postgres:16   \"postgres\"   Up 2 hours\n\
abcdefabcdef   my.registry/cross:1   \"sh\"   Exited (1)\n";

fn ok(stdout: &str) -> Option<CommandOutput> {
    Some(CommandOutput { success: true, stdout: stdout.as_bytes().to_vec(), stderr: Vec::new() })
}

#[test]
fn images_come_from_target_overrides_and_the_default() {
    let text = "[target.aarch64-unknown-linux-gnu]\nimage = \"my.registry/cross:1\"\n\n[target.x86_64-unknown-linux-gnu]\nimage = \"other/img\"\n";
    assert_eq!(
        container_images(text),
        Ok(Some(vec![
            "my.registry/cross:1".to_string(),
            "other/img".to_string(),
            "ghcr.io/cross-rs".to_string()
        ]))
    );
}

#[test]
fn unset_image_is_empty() {
    let text = "[target.x86_64-unknown-linux-gnu]\nrunner = \"qemu\"\n";
    assert_eq!(container_images(text), Ok(Some(vec![String::new(), "ghcr.io/cross-rs".to_string()])));
}

#[test]
fn no_target_section_means_nothing_to_do() {
    assert_eq!(container_images("[build]\nxargo = false\n"), Ok(None));
}

#[test]
fn malformed_target_section() {
    assert_eq!(container_images("target = 1\n"), Err(CritError::MalformedConfig));
    assert_eq!(container_images("[target]\nx = 1\n"), Err(CritError::MalformedConfig));
    assert_eq!(container_images("[target.x]\nimage = 3\n"), Err(CritError::MalformedConfig));
    assert!(matches!(container_images("[target"), Err(CritError::ConfigParse(_))));
}

#[test]
fn pattern_escapes_image_names() {
    let images = vec!["my.registry/cross:1".to_string(), "ghcr.io/cross-rs".to_string()];
    assert_eq!(
        container_pattern(&images),
        "([[:xdigit:]]{12})\\s+(my\\.registry/cross:1|ghcr\\.io/cross\\-rs)"
    );
}

#[test]
fn ids_of_matching_containers_only() {
    let images = vec!["my.registry/cross:1".to_string(), "ghcr.io/cross-rs".to_string()];
    let p = Pattern::new(&container_pattern(&images)).unwrap();
    assert_eq!(container_ids(&p, PS), vec!["0123456789ab".to_string(), "abcdefabcdef".to_string()]);
}

#[test]
fn cleanup_removes_containers_then_the_root() {
    let (mut c, a) = clean(".crit");
    assert!(matches!(a, CleanAction::ReadConfig));
    let config = "[target.aarch64-unknown-linux-gnu]\nimage = \"my.registry/cross:1\"\n";
    let a = c.step(CleanEvent::ConfigRead(Some(Ok(config.to_string()))));
    assert!(matches!(a, CleanAction::ListContainers));
    let mut a = c.step(CleanEvent::ContainersListed(ok(PS)));
    let mut removed: Vec<String> = Vec::new();
    while let CleanAction::RemoveContainer(id) = a {
        removed.push(id);
        a = c.step(CleanEvent::ContainerRemoved(ok("")));
    }
    assert_eq!(removed, vec!["0123456789ab", "abcdefabcdef"]);
    match a {
        CleanAction::RemoveDir(d) => assert_eq!(d, ".crit"),
        other => panic!("expected the root, got {:?}", other),
    }
    assert!(matches!(c.step(CleanEvent::DirRemoved(Ok(()))), CleanAction::Finish(Ok(()))));
}

#[test]
fn cleanup_twice_succeeds_both_times() {
    let config = "[target.x86_64-unknown-linux-gnu]\nimage = \"my.registry/cross:1\"\n";
    let (mut c, _) = clean(".crit");
    c.step(CleanEvent::ConfigRead(Some(Ok(config.to_string()))));
    let mut a = c.step(CleanEvent::ContainersListed(ok(PS)));
    while let CleanAction::RemoveContainer(_) = a {
        a = c.step(CleanEvent::ContainerRemoved(ok("")));
    }
    assert!(matches!(c.step(CleanEvent::DirRemoved(Ok(()))), CleanAction::Finish(Ok(()))));

    let (mut c, _) = clean(".crit");
    c.step(CleanEvent::ConfigRead(Some(Ok(config.to_string()))));
    let a = c.step(CleanEvent::ContainersListed(ok("CONTAINER ID   IMAGE   COMMAND\n")));
    assert!(matches!(a, CleanAction::RemoveDir(_)));
    assert!(matches!(c.step(CleanEvent::DirRemoved(Ok(()))), CleanAction::Finish(Ok(()))));
}

#[test]
fn cleanup_without_config_goes_to_the_root() {
    let (mut c, _) = clean(".crit");
    assert!(matches!(c.step(CleanEvent::ConfigRead(None)), CleanAction::RemoveDir(_)));
    assert!(matches!(c.step(CleanEvent::DirRemoved(Ok(()))), CleanAction::Finish(Ok(()))));
}

#[test]
fn listing_failure_carries_the_runtime_diagnostic() {
    let (mut c, _) = clean(".crit");
    c.step(CleanEvent::ConfigRead(Some(Ok("[target.x]\nimage = \"i\"\n".to_string()))));
    let out = CommandOutput { success: false, stdout: Vec::new(), stderr: b"daemon not running".to_vec() };
    match c.step(CleanEvent::ContainersListed(Some(out))) {
        CleanAction::Finish(r) => assert_eq!(r, Err(CritError::RuntimeQuery("daemon not running".to_string()))),
        other => panic!("expected the end, got {:?}", other),
    }
}

#[test]
fn removal_failure_aborts_before_the_root() {
    let (mut c, _) = clean(".crit");
    c.step(CleanEvent::ConfigRead(Some(Ok("[target.x]\nimage = \"ghcr.io/cross-rs\"\n".to_string()))));
    c.step(CleanEvent::ContainersListed(ok(PS)));
    let out = CommandOutput { success: false, stdout: Vec::new(), stderr: b"no such container".to_vec() };
    match c.step(CleanEvent::ContainerRemoved(Some(out))) {
        CleanAction::Finish(r) => assert_eq!(r, Err(CritError::Clean("no such container".to_string()))),
        other => panic!("expected the end, got {:?}", other),
    }
}

#[test]
fn root_removal_failure() {
    let (mut c, _) = clean(".crit");
    c.step(CleanEvent::ConfigRead(None));
    match c.step(CleanEvent::DirRemoved(Err("busy".to_string()))) {
        CleanAction::Finish(r) => assert_eq!(r, Err(CritError::Clean("busy".to_string()))),
        other => panic!("expected the end, got {:?}", other),
    }
}
