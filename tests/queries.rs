use whoami::{
    desktop_env, devicename, devicename_os, distro, distro_xml, fancy_fallback, fancy_fallback_os,
    hostname, hostname_os, name_from_record, platform, realname, realname_os, string_from_os,
    username, DesktopEnv, Platform,
};

#[test]
fn humanizer_splits_on_separators() {
    assert_eq!(fancy_fallback(Err("jane_doe.smith".to_string())), "Jane Doe Smith");
}

#[test]
fn humanizer_empty_stays_empty() {
    assert_eq!(fancy_fallback(Ok("")), "");
}

#[test]
fn humanizer_capitalizes_first_character() {
    assert_eq!(fancy_fallback(Ok("already Proper")), "Already Proper");
}

#[test]
fn humanizer_keeps_leading_space() {
    assert_eq!(fancy_fallback(Ok("-bob")), " Bob");
}

#[test]
fn humanizer_repeated_separators() {
    assert_eq!(fancy_fallback(Ok("a..b")), "A  B");
    assert_eq!(fancy_fallback(Ok("my-host.local")), "My Host Local");
}

#[test]
fn humanizer_multi_char_uppercase() {
    assert_eq!(fancy_fallback(Ok("\u{df}x")), "SSx");
}

#[test]
fn humanizer_os_keeps_preferred_bytes() {
    let raw = vec![b'a', 0xff, b'_', b'b'];
    assert_eq!(fancy_fallback_os(Ok(raw.clone())), raw);
}

#[test]
fn humanizer_os_humanizes_fallback() {
    assert_eq!(fancy_fallback_os(Err(b"jane_doe".to_vec())), b"Jane Doe".to_vec());
    assert_eq!(
        fancy_fallback_os(Err(vec![b'x', 0xff])),
        "X\u{fffd}".as_bytes().to_vec()
    );
}

#[test]
fn release_pretty_name_wins() {
    let text = "NAME=\"Generic\"\nPRETTY_NAME=\"Generic Linux 5\"\n";
    assert_eq!(distro(text), Some("Generic Linux 5".to_string()));
}

#[test]
fn release_name_is_fallback() {
    assert_eq!(distro("NAME=\"Generic\"\n"), Some("Generic".to_string()));
}

#[test]
fn release_without_names_is_absent() {
    assert_eq!(distro("ID=generic\nVERSION_ID=\"5\"\n"), None);
    assert_eq!(distro(""), None);
}

#[test]
fn release_last_name_is_kept() {
    assert_eq!(distro("NAME=first\nNAME=\"second\"\n"), Some("second".to_string()));
}

#[test]
fn release_pretty_name_before_name() {
    assert_eq!(distro("PRETTY_NAME=\"A\"\nNAME=\"B\"\n"), Some("A".to_string()));
}

#[test]
fn release_value_split_once() {
    assert_eq!(distro("PRETTY_NAME=\"a=b\"\n"), Some("a=b".to_string()));
}

#[test]
fn release_key_without_value_is_absent() {
    assert_eq!(distro("PRETTY_NAME\nNAME=\"B\"\n"), None);
}

#[test]
fn plist_version_only() {
    let data = "<plist>\n<dict>\n\t<key>ProductVersion</key>\n\t<string>12.1</string>\n</dict>\n</plist>\n";
    assert_eq!(distro_xml(data), Some("Mac OS (Unknown) 12.1".to_string()));
}

#[test]
fn plist_name_and_visible_version() {
    let data = "<dict>\n<key>ProductName</key>\n<string>MacOS</string>\n<key>ProductUserVisibleVersion</key>\n<string>12.1</string>\n</dict>";
    assert_eq!(distro_xml(data), Some("MacOS 12.1".to_string()));
}

#[test]
fn plist_version_does_not_override_visible() {
    let data = "<dict>\n<key>ProductName</key>\n<string>MacOS</string>\n<key>ProductUserVisibleVersion</key>\n<string>12.1</string>\n<key>ProductVersion</key>\n<string>12.0.9</string>\n</dict>";
    assert_eq!(distro_xml(data), Some("MacOS 12.1".to_string()));
}

#[test]
fn plist_name_only() {
    let data = "<dict>\n  <key>ProductName</key>\n  <string>Mac OS X</string>\n</dict>";
    assert_eq!(distro_xml(data), Some("Mac OS X".to_string()));
}

#[test]
fn plist_without_dict_is_absent() {
    assert_eq!(distro_xml("<key>ProductName</key>\n<string>MacOS</string>\n"), None);
    assert_eq!(distro_xml("<dict>\n<key>ProductName</key>\n<string>MacOS</string>\n"), None);
    assert_eq!(distro_xml("<dict>\n</dict>"), None);
}

#[test]
fn desktop_marker_order() {
    assert_eq!(desktop_env(Platform::Linux, Some("ubuntu:GNOME")), DesktopEnv::Gnome);
}

#[test]
fn desktop_no_signal() {
    assert_eq!(
        desktop_env(Platform::Linux, None),
        DesktopEnv::Unknown("Unknown".to_string())
    );
}

#[test]
fn desktop_unrecognized_keeps_text() {
    assert_eq!(
        desktop_env(Platform::Linux, Some("CustomWM")),
        DesktopEnv::Unknown("CustomWM".to_string())
    );
    assert_eq!(desktop_env(Platform::Linux, Some("")), DesktopEnv::Unknown(String::new()));
}

#[test]
fn desktop_markers() {
    assert_eq!(desktop_env(Platform::Linux, Some("lxde")), DesktopEnv::Lxde);
    assert_eq!(desktop_env(Platform::Linux, Some("Openbox")), DesktopEnv::Openbox);
    assert_eq!(desktop_env(Platform::Linux, Some("i3")), DesktopEnv::I3);
    assert_eq!(desktop_env(Platform::Linux, Some("ubuntu")), DesktopEnv::Ubuntu);
    assert_eq!(desktop_env(Platform::Linux, Some("plasma5")), DesktopEnv::Kde);
    assert_eq!(desktop_env(Platform::Linux, Some("plasma")), DesktopEnv::Unknown("plasma".to_string()));
}

#[test]
fn desktop_on_macos() {
    assert_eq!(desktop_env(Platform::MacOS, Some("gnome")), DesktopEnv::Aqua);
}

#[test]
fn platform_family() {
    assert_eq!(platform(true), Platform::MacOS);
    assert_eq!(platform(false), Platform::Linux);
}

#[test]
fn display_form_replaces_invalid_bytes() {
    assert_eq!(string_from_os(&vec![b'a', 0xff, b'b']), "a\u{fffd}b");
    assert_eq!(string_from_os(&"d\u{e9}j\u{e0}".as_bytes().to_vec()), "d\u{e9}j\u{e0}");
    assert_eq!(string_from_os(&Vec::new()), "");
}

#[test]
fn queries_repeat() {
    let text = "NAME=\"Generic\"\n";
    assert_eq!(distro(text), distro(text));
    assert_eq!(
        desktop_env(Platform::Linux, Some("CustomWM")),
        desktop_env(Platform::Linux, Some("CustomWM"))
    );
    let buffer = b"box\0".to_vec();
    assert_eq!(hostname(&buffer), hostname(&buffer));
    assert_eq!(
        realname(Vec::new(), b"jo_e".to_vec()),
        realname(Vec::new(), b"jo_e".to_vec())
    );
}

#[test]
fn record_name_choice() {
    assert_eq!(name_from_record(false, b"Jane".to_vec(), b"jane".to_vec()), Ok(b"jane".to_vec()));
    assert_eq!(name_from_record(true, b"Jane".to_vec(), b"jane".to_vec()), Ok(b"Jane".to_vec()));
    assert_eq!(name_from_record(true, Vec::new(), b"jane".to_vec()), Err(b"jane".to_vec()));
}

#[test]
fn realname_from_full_name_field() {
    assert_eq!(realname(b"Jane Q. Doe".to_vec(), b"jane".to_vec()), "Jane Q. Doe");
}

#[test]
fn realname_falls_back_to_login() {
    assert_eq!(realname(Vec::new(), b"jane_doe".to_vec()), "Jane Doe");
    assert_eq!(realname_os(Vec::new(), b"jane_doe".to_vec()), b"Jane Doe".to_vec());
    assert_eq!(realname_os(vec![0xff], b"x".to_vec()), vec![0xff]);
}

#[test]
fn username_as_text() {
    assert_eq!(username(&b"jane".to_vec()), "jane");
}

#[test]
fn hostname_stops_at_nul() {
    assert_eq!(hostname_os(&b"myhost\0junk".to_vec()), b"myhost".to_vec());
    assert_eq!(hostname(&b"myhost\0junk".to_vec()), "myhost");
    assert_eq!(hostname_os(&vec![0u8; 256]), Vec::<u8>::new());
}

#[test]
fn hostname_is_bounded() {
    let buffer = vec![b'a'; 300];
    assert_eq!(hostname_os(&buffer), vec![b'a'; 255]);
}

#[test]
fn device_from_machine_info() {
    let info = "ICON_NAME=computer\nPRETTY_HOSTNAME=\"Jane's Laptop\"\n";
    assert_eq!(devicename(Some(info), "my-host"), "Jane's Laptop");
}

#[test]
fn device_falls_back_to_hostname() {
    assert_eq!(devicename(None, "my-host.local"), "My Host Local");
    assert_eq!(devicename(Some("CHASSIS=laptop\n"), "my-host"), "My Host");
    assert_eq!(devicename(Some("PRETTY_HOSTNAME\n"), "box"), "Box");
}

#[test]
fn device_from_computer_name() {
    assert_eq!(devicename_os(b"Jane's Mac".to_vec(), b"jane-mac".to_vec()), b"Jane's Mac".to_vec());
    assert_eq!(devicename_os(Vec::new(), b"jane-mac".to_vec()), b"Jane Mac".to_vec());
}
