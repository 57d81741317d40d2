//! Server settings and how they are read from configuration values.

use vstd::prelude::*;
use crate::util::string_map::StringMap;
use crate::util::text::{
    lowercase, owned, parse_unsigned, push_char, str_eq, to_lowercase, trim, trimmed,
    unsigned_value,
};

verus! {

/// Severity threshold for log output.
#[derive(Debug, Clone, Copy, PartialEq, Eq, Structural)]
pub enum LogLevel {
    Debug,
    Info,
    Warn,
    Error,
}

/// The level named by an already-lowercased text.
pub open spec fn level_named(l: Seq<char>) -> Option<LogLevel> {
    if l == "debug"@ {
        Some(LogLevel::Debug)
    } else if l == "info"@ {
        Some(LogLevel::Info)
    } else if l == "warn"@ {
        Some(LogLevel::Warn)
    } else if l == "error"@ {
        Some(LogLevel::Error)
    } else {
        None
    }
}

/// The level a text names, ignoring case.
pub open spec fn level_of(s: Seq<char>) -> Option<LogLevel> {
    level_named(lowercase(s))
}

impl LogLevel {
    /// Reads a level name, ignoring case (`debug`, `info`, `warn`, `error`).
    pub fn parse(s: &str) -> (r: Result<LogLevel, String>)
        ensures
            match level_of(s@) {
                Some(l) => r == Ok::<LogLevel, String>(l),
                None => r.is_err() && r->Err_0@ == "Invalid log level: "@ + s@,
            },
    {
        let lower = to_lowercase(s);
        if str_eq(lower.as_str(), "debug") {
            Ok(LogLevel::Debug)
        } else if str_eq(lower.as_str(), "info") {
            Ok(LogLevel::Info)
        } else if str_eq(lower.as_str(), "warn") {
            Ok(LogLevel::Warn)
        } else if str_eq(lower.as_str(), "error") {
            Ok(LogLevel::Error)
        } else {
            let mut msg = owned("Invalid log level: ");
            msg.append(s);
            Err(msg)
        }
    }
}

impl std::str::FromStr for LogLevel {
    type Err = String;

    /// Reads a level name as [`LogLevel::parse`] does.
    fn from_str(s: &str) -> (r: Result<LogLevel, String>)
        ensures
            match level_of(s@) {
                Some(l) => r == Ok::<LogLevel, String>(l),
                None => r.is_err() && r->Err_0@ == "Invalid log level: "@ + s@,
            },
    {
        LogLevel::parse(s)
    }
}

/// The pieces of `s` between occurrences of `c` (`str::split` with a char).
pub open spec fn split_char(s: Seq<char>, c: char) -> Seq<Seq<char>>
    decreases s.len(),
{
    if s.len() == 0 {
        seq![Seq::<char>::empty()]
    } else {
        let rest = split_char(s.drop_last(), c);
        if s.last() == c {
            rest.push(Seq::empty())
        } else {
            rest.update(rest.len() - 1, rest.last().push(s.last()))
        }
    }
}

proof fn lemma_split_nonempty(s: Seq<char>, c: char)
    ensures
        split_char(s, c).len() >= 1,
    decreases s.len(),
{
    if s.len() > 0 {
        lemma_split_nonempty(s.drop_last(), c);
    }
}

/// The trimmed pieces that are not empty.
pub open spec fn nonempty_trimmed(pieces: Seq<Seq<char>>) -> Seq<Seq<char>>
    decreases pieces.len(),
{
    if pieces.len() == 0 {
        Seq::empty()
    } else {
        let rest = nonempty_trimmed(pieces.drop_last());
        let t = trimmed(pieces.last());
        if t.len() > 0 {
            rest.push(t)
        } else {
            rest
        }
    }
}

/// The tags of a comma-separated list: each piece trimmed, empty pieces dropped.
pub open spec fn tag_list(s: Seq<char>) -> Seq<Seq<char>> {
    nonempty_trimmed(split_char(s, ','))
}

/// The pieces of `s` between commas.
fn split_commas(s: &str) -> (r: Vec<String>)
    ensures
        r@.map_values(|p: String| p@) == split_char(s@, ','),
{
    let n = s.unicode_len();
    let mut pieces: Vec<String> = Vec::new();
    let mut cur = String::new();
    let mut i: usize = 0;
    assert(s@.subrange(0, 0) =~= Seq::<char>::empty());
    assert(pieces@.map_values(|p: String| p@).push(cur@) =~= split_char(Seq::<char>::empty(), ','));
    while i < n
        invariant
            n == s@.len(),
            i <= n,
            pieces@.map_values(|p: String| p@).push(cur@) == split_char(
                s@.subrange(0, i as int),
                ',',
            ),
        decreases n - i,
    {
        let ch = s.get_char(i);
        let ghost before = pieces@.map_values(|p: String| p@).push(cur@);
        let ghost t = s@.subrange(0, i + 1);
        proof {
            assert(t.drop_last() =~= s@.subrange(0, i as int));
            assert(t.last() == ch);
        }
        if ch == ',' {
            let done = cur;
            pieces.push(done);
            cur = String::new();
            assert(pieces@.map_values(|p: String| p@).push(cur@) =~= before.push(Seq::empty()));
        } else {
            push_char(&mut cur, ch);
            assert(pieces@.map_values(|p: String| p@).push(cur@) =~= before.update(
                before.len() - 1,
                before.last().push(ch),
            ));
        }
        i = i + 1;
    }
    assert(s@.subrange(0, n as int) =~= s@);
    pieces.push(cur);
    pieces
}

/// The tags of a comma-separated list (trimmed, empty ones dropped).
pub fn parse_tag_list(s: &str) -> (r: Vec<String>)
    ensures
        r@.map_values(|t: String| t@) == tag_list(s@),
{
    let pieces = split_commas(s);
    let ghost pv = pieces@.map_values(|p: String| p@);
    let mut out: Vec<String> = Vec::new();
    let mut j: usize = 0;
    assert(pv.take(0) =~= Seq::<Seq<char>>::empty());
    while j < pieces.len()
        invariant
            j <= pieces@.len(),
            pv == pieces@.map_values(|p: String| p@),
            out@.map_values(|t: String| t@) == nonempty_trimmed(pv.take(j as int)),
        decreases pieces@.len() - j,
    {
        let t = trim(pieces[j].as_str());
        let ghost before = out@.map_values(|x: String| x@);
        proof {
            let q = pv.take(j + 1);
            assert(q.drop_last() =~= pv.take(j as int));
            assert(q.last() == pieces@[j as int]@);
        }
        if t.unicode_len() > 0 {
            out.push(t);
            assert(out@.map_values(|x: String| x@) =~= before.push(trimmed(pieces@[j as int]@)));
        }
        j = j + 1;
    }
    assert(pv.take(pieces@.len() as int) =~= pv);
    out
}

/// The secrets read from files: each file name maps to its trimmed content; a
/// later file with the same name wins.
pub open spec fn secrets_of(files: Seq<(String, String)>) -> Map<Seq<char>, Seq<char>>
    decreases files.len(),
{
    if files.len() == 0 {
        Map::empty()
    } else {
        secrets_of(files.drop_last()).insert(files.last().0@, trimmed(files.last().1@))
    }
}

/// The secrets map of a list of secret files.
fn secrets_from_files(files: &Vec<(String, String)>) -> (r: StringMap)
    ensures
        r@ == secrets_of(files@),
{
    let mut secrets = StringMap::new();
    let mut i: usize = 0;
    assert(files@.take(0) =~= Seq::<(String, String)>::empty());
    while i < files.len()
        invariant
            i <= files@.len(),
            secrets@ == secrets_of(files@.take(i as int)),
        decreases files@.len() - i,
    {
        let name = files[i].0.clone();
        let content = trim(files[i].1.as_str());
        secrets.insert(name, content);
        proof {
            let q = files@.take(i + 1);
            assert(q.drop_last() =~= files@.take(i as int));
            assert(q.last() == files@[i as int]);
        }
        i = i + 1;
    }
    assert(files@.take(files@.len() as int) =~= files@);
    secrets
}

/// Raw configuration values, as read from the environment (`FASTMCP_*`
/// variables) and from the secrets directory.
pub struct SettingsSources {
    pub host: Option<String>,
    pub port: Option<String>,
    pub debug: Option<String>,
    pub log_level: Option<String>,
    pub client_init_timeout: Option<String>,
    pub include_tags: Option<String>,
    pub exclude_tags: Option<String>,
    /// Files of the secrets directory: file name and content.
    pub secret_files: Vec<(String, String)>,
}

/// The port a configuration value gives, or `default` when it does not read as
/// a port number.
pub open spec fn port_of(v: Option<String>, default: u16) -> u16 {
    match v {
        Some(s) => match unsigned_value(s@) {
            Some(p) => if p <= 65535 {
                p as u16
            } else {
                default
            },
            None => default,
        },
        None => default,
    }
}

/// Whether a configuration value switches debug mode on (`true` in any case, or `1`).
pub open spec fn debug_of(v: Option<String>) -> bool {
    match v {
        Some(s) => lowercase(s@) == "true"@ || s@ == "1"@,
        None => false,
    }
}

/// Server settings.
pub struct Settings {
    pub host: String,
    pub port: u16,
    pub debug: bool,
    pub log_level: LogLevel,
    /// Client initialisation timeout in milliseconds.
    pub client_init_timeout: Option<u64>,
    pub secrets: StringMap,
    pub include_tags: Vec<String>,
    pub exclude_tags: Vec<String>,
}

impl Default for Settings {
    fn default() -> (r: Settings)
        ensures
            r.host@ == "127.0.0.1"@,
            r.port == 3000,
            !r.debug,
            r.log_level == LogLevel::Info,
            r.client_init_timeout.is_none(),
            r.secrets@ == Map::<Seq<char>, Seq<char>>::empty(),
            r.include_tags@.len() == 0,
            r.exclude_tags@.len() == 0,
    {
        Settings {
            host: owned("127.0.0.1"),
            port: 3000,
            debug: false,
            log_level: LogLevel::Info,
            client_init_timeout: None,
            secrets: StringMap::new(),
            include_tags: Vec::new(),
            exclude_tags: Vec::new(),
        }
    }
}

impl Settings {
    /// The default settings: `127.0.0.1:3000`, no debug, `Info` logging.
    pub fn new() -> (r: Settings)
        ensures
            r.host@ == "127.0.0.1"@,
            r.port == 3000,
            !r.debug,
            r.log_level == LogLevel::Info,
            r.client_init_timeout.is_none(),
            r.secrets@ == Map::<Seq<char>, Seq<char>>::empty(),
            r.include_tags@.len() == 0,
            r.exclude_tags@.len() == 0,
    {
        Settings::default()
    }

    /// The settings that configuration values give: each value that is present
    /// and reads correctly replaces the default; the others keep it.
    pub fn from_sources(src: SettingsSources) -> (r: Settings)
        ensures
            r.host@ == (match src.host {
                Some(h) => h@,
                None => "127.0.0.1"@,
            }),
            r.port == port_of(src.port, 3000),
            r.debug == debug_of(src.debug),
            r.log_level == (match src.log_level {
                Some(l) => match level_of(l@) {
                    Some(v) => v,
                    None => LogLevel::Info,
                },
                None => LogLevel::Info,
            }),
            r.client_init_timeout == (match src.client_init_timeout {
                Some(t) => match unsigned_value(t@) {
                    Some(v) => if v <= u64::MAX {
                        Some(v as u64)
                    } else {
                        None::<u64>
                    },
                    None => None::<u64>,
                },
                None => None::<u64>,
            }),
            r.include_tags@.map_values(|t: String| t@) == (match src.include_tags {
                Some(s) => tag_list(s@),
                None => Seq::<Seq<char>>::empty(),
            }),
            r.exclude_tags@.map_values(|t: String| t@) == (match src.exclude_tags {
                Some(s) => tag_list(s@),
                None => Seq::<Seq<char>>::empty(),
            }),
            r.secrets@ == secrets_of(src.secret_files@),
    {
        let mut settings = Settings::new();
        if let Some(h) = src.host {
            settings.host = h;
        }
        if let Some(p) = &src.port {
            if let Some(port) = parse_unsigned(p.as_str(), 65535) {
                settings.port = port as u16;
            }
        }
        if let Some(d) = &src.debug {
            let lower = to_lowercase(d.as_str());
            settings.debug = str_eq(lower.as_str(), "true") || str_eq(d.as_str(), "1");
        }
        if let Some(l) = &src.log_level {
            if let Ok(level) = LogLevel::parse(l.as_str()) {
                settings.log_level = level;
            }
        }
        if let Some(t) = &src.client_init_timeout {
            if let Some(v) = parse_unsigned(t.as_str(), u64::MAX) {
                settings.client_init_timeout = Some(v);
            }
        }
        if let Some(s) = &src.include_tags {
            settings.include_tags = parse_tag_list(s.as_str());
        } else {
            assert(settings.include_tags@.map_values(|t: String| t@) =~= Seq::<Seq<char>>::empty());
        }
        if let Some(s) = &src.exclude_tags {
            settings.exclude_tags = parse_tag_list(s.as_str());
        } else {
            assert(settings.exclude_tags@.map_values(|t: String| t@) =~= Seq::<Seq<char>>::empty());
        }
        settings.secrets = secrets_from_files(&src.secret_files);
        settings
    }
}

/// Law: the decimal text of a port number configures exactly that port.
pub proof fn law_port_roundtrip(n: u16, text: String, default: u16)
    requires
        text@ == crate::util::text::decimal(n as nat),
    ensures
        port_of(Some(text), default) == n,
{
    crate::util::text::lemma_decimal_roundtrip(n as nat);
}

} // verus!
