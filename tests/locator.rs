use asset_bridge::locator::{
    dev_local_path, packaged_path, resolve, script_path, LocatorError, LocatorInputs, Platform,
    Strategy,
};
use asset_bridge::outcome::Operation;

fn inputs() -> LocatorInputs {
    LocatorInputs {
        override_path: None,
        baked_path: None,
        source_root: Some("/home/dev/project".to_string()),
        dev_present: false,
        resource_dir: Some("/opt/app/resources".to_string()),
        packaged_present: true,
        platform: Platform::Unix,
    }
}

#[test]
fn override_wins_over_everything() {
    let mut i = inputs();
    i.override_path = Some("/usr/local/bin/python3".to_string());
    i.baked_path = Some("/baked/python".to_string());
    i.dev_present = true;
    let loc = resolve(&i).unwrap();
    assert_eq!(loc.path, "/usr/local/bin/python3");
    assert_eq!(loc.strategy, Strategy::Override);
}

#[test]
fn override_wins_over_present_dev_and_packaged() {
    let mut i = inputs();
    i.override_path = Some("C:/Python312/python.exe".to_string());
    i.dev_present = true;
    i.platform = Platform::Windows;
    let loc = resolve(&i).unwrap();
    assert_eq!(loc.path, "C:/Python312/python.exe");
    assert_eq!(loc.strategy, Strategy::Override);
}

#[test]
fn absent_packaged_runtime_is_not_found() {
    let mut i = inputs();
    i.packaged_present = false;
    assert_eq!(resolve(&i), Err(LocatorError::RuntimeNotFound));
    i.dev_present = true;
    assert_eq!(resolve(&i).unwrap().strategy, Strategy::DevLocal);
}

#[test]
fn baked_wins_over_dev_local() {
    let mut i = inputs();
    i.baked_path = Some("/baked/python".to_string());
    i.dev_present = true;
    assert_eq!(resolve(&i).unwrap().strategy, Strategy::Baked);
}

#[test]
fn dev_local_when_present_else_packaged() {
    let mut i = inputs();
    i.dev_present = true;
    let loc = resolve(&i).unwrap();
    assert_eq!(loc.path, "/home/dev/project/src-python/.venv/bin/python");
    assert_eq!(loc.strategy, Strategy::DevLocal);
    i.dev_present = false;
    let loc = resolve(&i).unwrap();
    assert_eq!(loc.path, "/opt/app/resources/python-runtime/bin/python");
    assert_eq!(loc.strategy, Strategy::Packaged);
}

#[test]
fn nothing_found() {
    let mut i = inputs();
    i.resource_dir = None;
    assert_eq!(resolve(&i), Err(LocatorError::RuntimeNotFound));
}

#[test]
fn windows_layouts() {
    assert_eq!(dev_local_path("C:/p", Platform::Windows), "C:/p/src-python/.venv/Scripts/python.exe");
    assert_eq!(packaged_path("C:/r", Platform::Windows), "C:/r/python-runtime/python.exe");
    assert_eq!(packaged_path("/r", Platform::Unix), "/r/python-runtime/bin/python");
}

#[test]
fn entry_scripts() {
    assert_eq!(script_path("/res", Operation::Read), "/res/src-python/scripts/read_assets_file.py");
    assert_eq!(script_path("/res", Operation::Write), "/res/src-python/scripts/write_assets_file.py");
}
