use std::path::PathBuf;
use vst_host::bundle::{binary_path_for_component, bundle_binary_path, OS_LABEL};
use vst_host::host::{create_instance_result, host_name_units, name_request_result, HOST_NAME};

#[test]
fn host_name_does_not_fill_a_string128() {
    assert_eq!(HOST_NAME.chars().count(), 16);
    assert_eq!(host_name_units(), None);
}

#[test]
fn host_answers() {
    assert_eq!(name_request_result(), 0);
    assert_eq!(create_instance_result(), 1);
}

fn std_binary_path(path: &str) -> String {
    let p = PathBuf::from(path);
    let last = p.components().last().unwrap();
    let name = last.as_os_str().to_str().unwrap().split_once('.').unwrap().0;
    p.join("Contents").join(OS_LABEL).join(name).to_str().unwrap().to_string()
}

#[test]
fn binary_path_of_installed_bundle() {
    let path = "/Library/Audio/Plug-Ins/VST3/OTT.vst3";
    assert_eq!(
        bundle_binary_path(path),
        Some("/Library/Audio/Plug-Ins/VST3/OTT.vst3/Contents/MacOS/OTT".to_string())
    );
    assert_eq!(bundle_binary_path(path).unwrap(), std_binary_path(path));
}

#[test]
fn binary_path_agrees_with_path_buf() {
    for path in ["/a/OTT.vst3/", "plug.vst3", "x/my.plugin.vst3", "/b/.hidden", "rel/dir/Some Synth.vst3"] {
        assert_eq!(bundle_binary_path(path), Some(std_binary_path(path)), "{}", path);
    }
    assert_eq!(bundle_binary_path("/a/OTT.vst3/").unwrap(), "/a/OTT.vst3/Contents/MacOS/OTT");
    assert_eq!(bundle_binary_path("/b/.hidden").unwrap(), "/b/.hidden/Contents/MacOS/");
}

#[test]
fn binary_path_needs_a_dotted_component() {
    assert_eq!(bundle_binary_path(""), None);
    assert_eq!(bundle_binary_path("/"), None);
    assert_eq!(bundle_binary_path("/Library/Plugin"), None);
}

#[test]
fn binary_path_from_component() {
    let component: Vec<char> = "OTT.vst3".chars().collect();
    assert_eq!(
        binary_path_for_component("/Library/Audio/Plug-Ins/VST3/OTT.vst3", &component),
        Some("/Library/Audio/Plug-Ins/VST3/OTT.vst3/Contents/MacOS/OTT".to_string())
    );
    assert_eq!(
        binary_path_for_component("/b/", &"a.b.c".chars().collect()),
        Some("/b/Contents/MacOS/a".to_string())
    );
    assert_eq!(binary_path_for_component("", &"x.y".chars().collect()), Some("Contents/MacOS/x".to_string()));
    assert_eq!(binary_path_for_component("/b/plain", &"plain".chars().collect()), None);
}
