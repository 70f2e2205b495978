use pumpkin_runner::platform::{artifact_spec, is_release_build, plugin_file_name, Platform};

#[test]
fn windows_plugin_name_and_release_dir() {
    let spec = artifact_spec(Platform::Windows);
    assert_eq!(plugin_file_name(&spec, "my-plugin"), "my_plugin.dll");
    assert_eq!(spec.build_subdir, "release");
    assert!(is_release_build(Platform::Windows));
}

#[test]
fn linux_plugin_name_and_debug_dir() {
    let spec = artifact_spec(Platform::OtherUnix);
    assert_eq!(plugin_file_name(&spec, "my-plugin"), "libmy_plugin.so");
    assert_eq!(spec.build_subdir, "debug");
    assert!(!is_release_build(Platform::OtherUnix));
}

#[test]
fn macos_plugin_name_and_debug_dir() {
    let spec = artifact_spec(Platform::MacOs);
    assert_eq!(plugin_file_name(&spec, "my-plugin"), "libmy_plugin.dylib");
    assert_eq!(spec.build_subdir, "debug");
    assert!(!is_release_build(Platform::MacOs));
}

#[test]
fn every_dash_is_replaced() {
    let spec = artifact_spec(Platform::OtherUnix);
    assert_eq!(plugin_file_name(&spec, "a-b--c_d"), "liba_b__c_d.so");
    assert_eq!(plugin_file_name(&spec, ""), "lib.so");
}
