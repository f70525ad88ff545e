use autoclicker::config::AppConfig;
use autoclicker::profiles::{is_profile_file_name, join_path, profile_file_name, Profile, ProfileManager};

#[test]
fn file_names_are_lower_case_with_underscores() {
    assert_eq!(profile_file_name("My Profile"), "my_profile.json");
    assert_eq!(profile_file_name("Jogo RÁPIDO 2"), "jogo_rápido_2.json");
    assert_eq!(profile_file_name(""), ".json");
}

#[test]
fn json_extension_detection() {
    assert!(is_profile_file_name("my_profile.json"));
    assert!(is_profile_file_name("a.json"));
    assert!(!is_profile_file_name(".json"));
    assert!(!is_profile_file_name("profile.jsonx"));
    assert!(!is_profile_file_name("profile.txt"));
    assert!(!is_profile_file_name("json"));
}

#[test]
fn saved_names_are_listed_unless_empty() {
    assert!(is_profile_file_name(&profile_file_name("Meu Perfil")));
    assert!(!is_profile_file_name(&profile_file_name("")));
}

#[test]
fn path_joining() {
    assert_eq!(join_path("/home/u/.config", "x"), "/home/u/.config/x");
    assert_eq!(join_path("/home/u/.config/", "x"), "/home/u/.config/x");
    assert_eq!(join_path("", "x"), "x");
    assert_eq!(join_path("/home/u", "/etc/x.json"), "/etc/x.json");
    for (base, component) in [("/a/b", "c d.json"), ("rel", "x"), ("/", "y")] {
        let expected = std::path::PathBuf::from(base).join(component);
        assert_eq!(join_path(base, component), expected.to_string_lossy());
    }
}

#[test]
fn manager_directories() {
    let manager = ProfileManager::new(Some("/home/ana/.config".to_string()));
    assert_eq!(manager.config_dir(), "/home/ana/.config/humanized-autoclicker/profiles");
    assert_eq!(
        manager.profile_path("Meu Perfil"),
        "/home/ana/.config/humanized-autoclicker/profiles/meu_perfil.json"
    );
    let fallback = ProfileManager::new(None);
    assert_eq!(fallback.config_dir(), "~/.config/humanized-autoclicker/profiles");
}

#[test]
fn profile_clone_keeps_fields() {
    let profile = Profile { name: "Fast".to_string(), enabled: false, config: AppConfig::default() };
    let copy = profile.clone();
    assert_eq!(copy.name, "Fast");
    assert!(!copy.enabled);
    assert_eq!(copy.config.target_cps, 10);
}

#[test]
fn json_extension_agrees_with_std_paths() {
    for name in ["a.json", ".json", "x.y.json", "json", "a.JSON", "..", "b.json.bak", "c..json", "ç.json"] {
        let std_says = std::path::Path::new(name).extension().and_then(|e| e.to_str()) == Some("json");
        assert_eq!(is_profile_file_name(name), std_says, "{}", name);
    }
}
