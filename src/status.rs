use vstd::prelude::*;

verus! {

/// Where the proxy listens when no address is given.
pub const DEFAULT_LISTENING_IP: &'static str = "0.0.0.0:25565";

/// The message of the day when none is given.
pub const DEFAULT_MOTD: &'static str = "[{\"text\":\"A \",\"color\":\"gold\"},{\"text\":\"nano-mc\",\"color\":\"green\"},{\"text\":\" proxy.\",\"color\":\"gold\"}]";

/// The message of the day while the upstream server is unreachable, when
/// none is given.
pub const DEFAULT_OFFLINE_MOTD: &'static str = "[{\"text\":\"A \",\"color\":\"gold\"},{\"text\":\"nano-mc\",\"color\":\"green\"},{\"text\":\" proxy. \",\"color\":\"gold\"},{\"text\":\"(\",\"color\":\"gray\"},{\"text\":\"Offline\",\"color\":\"red\"},{\"text\":\")\",\"color\":\"gray\"}]";

/// What closes a given message of the day (a JSON array without its `]`) to
/// make the offline one.
pub const OFFLINE_SUFFIX: &'static str = ",{\"text\":\" (\",\"color\":\"gray\"},{\"text\":\"Offline\",\"color\":\"red\"},{\"text\":\")\",\"color\":\"gray\"}]";

/// What comes before a favicon's data URL in the status document.
pub const FAVICON_HEAD: &'static str = "\"favicon\":\"";

/// What comes after a favicon's data URL in the status document.
pub const FAVICON_TAIL: &'static str = "\",";

/// The start of the status document while the upstream server is
/// unreachable, up to its description.
pub const OFFLINE_STATUS_HEAD: &'static str = "{\n    \"version\": {\n        \"name\": \"Offline\",\n        \"protocol\": -1\n    },\n    \"players\": {\n        \"max\": 0,\n        \"online\": 0,\n        \"sample\": []\n    },\n    \"description\": ";

/// The start of the status document while the upstream server answers, up
/// to its player list.
pub const ONLINE_STATUS_HEAD: &'static str = "{\n    \"version\": {\n        \"name\": \"Paper 1.20.4\",\n        \"protocol\": 765\n    },\n    ";

/// What comes between the player list and the description.
pub const DESCRIPTION_HEAD: &'static str = ",\n    \"description\": ";

/// What comes between the description and the favicon.
pub const FAVICON_SEPARATOR: &'static str = ",\n    ";

/// The end of every status document.
pub const STATUS_TAIL: &'static str = "\n    \"enforcesSecureChat\": true,\n    \"previewsChat\": true\n}";

/// The pattern whose first group is the `"players":{...}` member of an
/// upstream status document; the member's objects may hold objects one level
/// deep (the entries of its sample).
pub const PLAYERS_PATTERN: &'static str = "(\"players\":\\{(?:[^{}]|\\{[^{}]*\\})*\\})";

/// The proxy's settings.
#[derive(Debug, Clone)]
pub struct Config {
    /// The upstream server's host.
    pub target_ip: String,
    /// The address and port to listen on.
    pub listening_ip: String,
    /// The description shown while the upstream server answers (JSON).
    pub motd: String,
    /// The description shown while it does not (JSON).
    pub offline_motd: String,
    /// The status document's favicon member with its trailing comma, or
    /// nothing.
    pub favicon: String,
}

impl Default for Config {
    fn default() -> (r: Config)
        ensures
            r.target_ip@ == Seq::<char>::empty(),
            r.listening_ip@ == DEFAULT_LISTENING_IP@,
            r.motd@ == DEFAULT_MOTD@,
            r.offline_motd@ == DEFAULT_OFFLINE_MOTD@,
            r.favicon@ == Seq::<char>::empty(),
    {
        Config {
            target_ip: String::new(),
            listening_ip: String::from_str(DEFAULT_LISTENING_IP),
            motd: String::from_str(DEFAULT_MOTD),
            offline_motd: String::from_str(DEFAULT_OFFLINE_MOTD),
            favicon: String::new(),
        }
    }
}

/// Whether a message of the day is a JSON array that the offline marker can
/// be appended to: it starts with `[` and ends with `]`.
pub open spec fn is_bracketed(motd: Seq<char>) -> bool {
    motd.len() >= 2 && motd[0] == '[' && motd.last() == ']'
}

/// The offline message of the day made from a given one.
pub open spec fn offline_motd_of(motd: Seq<char>) -> Seq<char> {
    motd.drop_last() + OFFLINE_SUFFIX@
}

/// The favicon member of the status document for a data URL.
pub open spec fn favicon_member(url: Seq<char>) -> Seq<char> {
    FAVICON_HEAD@ + url + FAVICON_TAIL@
}

impl Config {
    /// The settings given on the command line (the program name first, then
    /// the upstream host, and optionally the listening address, the message
    /// of the day and the favicon's data URL); `None` for any other number of
    /// arguments.
    pub fn from_args(args: &Vec<String>) -> (r: Option<Config>)
        ensures
            r is Some <==> 2 <= args@.len() <= 5,
            r matches Some(c) ==> {
                &&& c.target_ip@ == args@[1]@
                &&& c.listening_ip@ == if args@.len() > 2 { args@[2]@ } else { DEFAULT_LISTENING_IP@ }
                &&& c.motd@ == if args@.len() > 3 { args@[3]@ } else { DEFAULT_MOTD@ }
                &&& c.offline_motd@ == if args@.len() > 3 && is_bracketed(args@[3]@) {
                    offline_motd_of(args@[3]@)
                } else {
                    DEFAULT_OFFLINE_MOTD@
                }
                &&& c.favicon@ == if args@.len() > 4 { favicon_member(args@[4]@) } else { Seq::<char>::empty() }
            },
    {
        let n = args.len();
        if n < 2 || n > 5 {
            return None;
        }
        let mut config = Config::default();
        config.target_ip = args[1].clone();
        if n > 2 {
            config.listening_ip = args[2].clone();
        }
        if n > 3 {
            config.motd = args[3].clone();
            let motd = args[3].as_str();
            let len = motd.unicode_len();
            if len >= 2 && motd.get_char(0) == '[' && motd.get_char(len - 1) == ']' {
                let mut offline = String::from_str(motd.substring_char(0, len - 1));
                offline.append(OFFLINE_SUFFIX);
                config.offline_motd = offline;
            }
        }
        if n > 4 {
            let mut favicon = String::from_str(FAVICON_HEAD);
            favicon.append(args[4].as_str());
            favicon.append(FAVICON_TAIL);
            config.favicon = favicon;
        }
        Some(config)
    }
}

/// The status document while the upstream server is unreachable.
pub open spec fn offline_status(offline_motd: Seq<char>, favicon: Seq<char>) -> Seq<char> {
    OFFLINE_STATUS_HEAD@ + offline_motd + FAVICON_SEPARATOR@ + favicon + STATUS_TAIL@
}

/// The status document while the upstream server answers, with its player
/// list member.
pub open spec fn online_status(players: Seq<char>, motd: Seq<char>, favicon: Seq<char>) -> Seq<char> {
    ONLINE_STATUS_HEAD@ + players + DESCRIPTION_HEAD@ + motd + FAVICON_SEPARATOR@ + favicon + STATUS_TAIL@
}

/// The text of the first match of regular expression `pattern` in `haystack`
/// that group `group` captured; `None` where the pattern is not valid, does
/// not match, or the group took no part in the match.
pub uninterp spec fn regex_capture(pattern: Seq<char>, haystack: Seq<char>, group: nat) -> Option<Seq<char>>;

/// Relies on `regex::Regex::new`, `Regex::captures` and `Captures::get`: the
/// text that a group captured in the first match is a function of the
/// pattern, the text searched and the group's number.
#[verifier::external_body]
fn capture_group(pattern: &str, haystack: &str, group: usize) -> (r: Option<String>)
    ensures
        match r {
            Some(s) => regex_capture(pattern@, haystack@, group as nat) == Some(s@),
            None => regex_capture(pattern@, haystack@, group as nat) is None,
        },
{
    let re = regex::Regex::new(pattern).ok()?;
    let caps = re.captures(haystack)?;
    caps.get(group).map(|m| m.as_str().to_string())
}

/// The status document while the upstream server is unreachable.
pub fn offline_status_json(config: &Config) -> (r: String)
    ensures
        r@ == offline_status(config.offline_motd@, config.favicon@),
{
    let mut out = String::from_str(OFFLINE_STATUS_HEAD);
    out.append(config.offline_motd.as_str());
    out.append(FAVICON_SEPARATOR);
    out.append(config.favicon.as_str());
    out.append(STATUS_TAIL);
    out
}

/// The status document while the upstream server answers, with the player
/// list member taken from its own document.
pub fn online_status_json(config: &Config, players: &str) -> (r: String)
    ensures
        r@ == online_status(players@, config.motd@, config.favicon@),
{
    let mut out = String::from_str(ONLINE_STATUS_HEAD);
    out.append(players);
    out.append(DESCRIPTION_HEAD);
    out.append(config.motd.as_str());
    out.append(FAVICON_SEPARATOR);
    out.append(config.favicon.as_str());
    out.append(STATUS_TAIL);
    out
}

/// The status document to send a client, given what the upstream server
/// answered to a status request (`None` where it could not be reached in
/// time): its player list is spliced into the proxy's own document; where it
/// did not answer, or its answer has no player list, the offline document is
/// sent.
pub fn status_json(config: &Config, upstream: Option<&str>) -> (r: String)
    ensures
        r@ == match upstream {
            None => offline_status(config.offline_motd@, config.favicon@),
            Some(doc) => match regex_capture(PLAYERS_PATTERN@, doc@, 1) {
                Some(players) => online_status(players, config.motd@, config.favicon@),
                None => offline_status(config.offline_motd@, config.favicon@),
            },
        },
{
    match upstream {
        None => offline_status_json(config),
        Some(doc) => match capture_group(PLAYERS_PATTERN, doc, 1) {
            Some(players) => online_status_json(config, players.as_str()),
            None => offline_status_json(config),
        },
    }
}

} // verus!
