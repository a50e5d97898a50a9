use cat_launcher::launch::launch_command;
use cat_launcher::path::parent_of;
use cat_launcher::platform::OS;
use std::path::Path;

#[test]
fn parent_matches_std_path_parent_on_unix_paths() {
    let samples = [
        "", "/", "//", "foo", "/foo", "/foo/bar", "foo/bar", "foo/bar/", "foo//bar", "a/./b",
        "a/.", "/.", ".", "./b", "..", "a/..", "/a/b/./", "./", "a/b/../c",
    ];
    for s in samples {
        let expected = Path::new(s).parent().map(|p| p.to_str().unwrap().to_string());
        for os in [OS::Linux, OS::Mac] {
            assert_eq!(parent_of(os, s), expected, "parent of {s:?}");
        }
    }
}

#[test]
fn parent_on_windows_paths() {
    assert_eq!(
        parent_of(OS::Windows, "C:\\Games\\cdda\\cataclysm-tiles.exe"),
        Some("C:\\Games\\cdda".to_string())
    );
    assert_eq!(parent_of(OS::Windows, "C:\\game.exe"), Some("C:\\".to_string()));
    assert_eq!(parent_of(OS::Windows, "C:game.exe"), Some("C:".to_string()));
    assert_eq!(parent_of(OS::Windows, "C:\\"), None);
    assert_eq!(parent_of(OS::Windows, "C:"), None);
    assert_eq!(parent_of(OS::Windows, "D:/games/bn/cataclysm.exe"), Some("D:/games/bn".to_string()));
    assert_eq!(parent_of(OS::Linux, "C:\\game.exe"), Some("".to_string()));
}

#[test]
fn launch_command_runs_executable_in_its_directory() {
    let cmd = launch_command(
        OS::Linux,
        "/data/Games/DDA/0.H/cataclysm-launcher",
        "/data/UserData/DDA",
        Some("Alpha"),
    )
    .unwrap();
    assert_eq!(cmd.program, "/data/Games/DDA/0.H/cataclysm-launcher");
    assert_eq!(cmd.current_dir, "/data/Games/DDA/0.H");
    assert_eq!(cmd.args, vec!["--userdir", "/data/UserData/DDA", "--world", "Alpha"]);

    let cmd = launch_command(OS::Windows, "C:\\G\\cataclysm-tiles.exe", "C:\\U", None).unwrap();
    assert_eq!(cmd.current_dir, "C:\\G");
    assert_eq!(cmd.args, vec!["--userdir", "C:\\U"]);

    assert!(launch_command(OS::Linux, "/", "/u", None).is_none());
    assert!(launch_command(OS::Linux, "", "/u", None).is_none());
}
