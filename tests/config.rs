use nano_mc::status::{offline_status_json, online_status_json, Config, DEFAULT_LISTENING_IP, DEFAULT_MOTD, DEFAULT_OFFLINE_MOTD};

fn args(list: &[&str]) -> Vec<String> {
    list.iter().map(|s| s.to_string()).collect()
}

#[test]
fn config_defaults() {
    let c = Config::default();
    assert_eq!(c.target_ip, "");
    assert_eq!(c.listening_ip, "0.0.0.0:25565");
    assert_eq!(c.motd, DEFAULT_MOTD);
    assert_eq!(c.offline_motd, DEFAULT_OFFLINE_MOTD);
    assert_eq!(c.favicon, "");
}

#[test]
fn config_argument_count() {
    assert!(Config::from_args(&args(&["proxy"])).is_none());
    assert!(Config::from_args(&args(&["proxy", "a", "b", "c", "d", "e"])).is_none());
    let c = Config::from_args(&args(&["proxy", "1.2.3.4"])).unwrap();
    assert_eq!(c.target_ip, "1.2.3.4");
    assert_eq!(c.listening_ip, DEFAULT_LISTENING_IP);
}

#[test]
fn config_all_arguments() {
    let c = Config::from_args(&args(&["proxy", "1.2.3.4", "127.0.0.1:25566", "[{\"text\":\"Hi\"}]", "data:image/png;base64,AAA"])).unwrap();
    assert_eq!(c.listening_ip, "127.0.0.1:25566");
    assert_eq!(c.motd, "[{\"text\":\"Hi\"}]");
    assert_eq!(
        c.offline_motd,
        "[{\"text\":\"Hi\"},{\"text\":\" (\",\"color\":\"gray\"},{\"text\":\"Offline\",\"color\":\"red\"},{\"text\":\")\",\"color\":\"gray\"}]"
    );
    assert_eq!(c.favicon, "\"favicon\":\"data:image/png;base64,AAA\",");
}

#[test]
fn config_motd_not_an_array() {
    let c = Config::from_args(&args(&["proxy", "h", "l", "\"plain\""])).unwrap();
    assert_eq!(c.motd, "\"plain\"");
    assert_eq!(c.offline_motd, DEFAULT_OFFLINE_MOTD);
    let c = Config::from_args(&args(&["proxy", "h", "l", ""])).unwrap();
    assert_eq!(c.offline_motd, DEFAULT_OFFLINE_MOTD);
}

#[test]
fn offline_document_exact() {
    let mut c = Config::default();
    c.offline_motd = "\"off\"".to_string();
    c.favicon = "\"favicon\":\"u\",".to_string();
    assert_eq!(
        offline_status_json(&c),
        "{\n    \"version\": {\n        \"name\": \"Offline\",\n        \"protocol\": -1\n    },\n    \"players\": {\n        \"max\": 0,\n        \"online\": 0,\n        \"sample\": []\n    },\n    \"description\": \"off\",\n    \"favicon\":\"u\",\n    \"enforcesSecureChat\": true,\n    \"previewsChat\": true\n}"
    );
}

#[test]
fn online_document_exact() {
    let mut c = Config::default();
    c.motd = "\"on\"".to_string();
    assert_eq!(
        online_status_json(&c, "\"players\":{\"max\":1}"),
        "{\n    \"version\": {\n        \"name\": \"Paper 1.20.4\",\n        \"protocol\": 765\n    },\n    \"players\":{\"max\":1},\n    \"description\": \"on\",\n    \n    \"enforcesSecureChat\": true,\n    \"previewsChat\": true\n}"
    );
}
