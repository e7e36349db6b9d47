//! The session configuration that the tool asks for: the entries it
//! always sets and those that the top-level options add. Each entry is a
//! configuration path with a JSON5 value; the caller inserts them in
//! order.

use vstd::prelude::*;
use vstd::string::*;
use crate::text::same_text;

verus! {

/// One configuration insertion: a path and its JSON5 value.
#[derive(Clone, Debug)]
pub struct ConfigEntry {
    pub key: String,
    pub value: String,
}

/// The path and value of each entry, in order.
pub open spec fn entries_view(v: Seq<ConfigEntry>) -> Seq<(Seq<char>, Seq<char>)> {
    v.map_values(|e: ConfigEntry| (e.key@, e.value@))
}

fn entry(key: &str, value: &str) -> (r: ConfigEntry)
    ensures
        r.key@ == key@,
        r.value@ == value@,
{
    ConfigEntry { key: String::from_str(key), value: String::from_str(value) }
}

fn push_entry(v: &mut Vec<ConfigEntry>, e: ConfigEntry)
    ensures
        entries_view(final(v)@) == entries_view(old(v)@).push((e.key@, e.value@)),
{
    let ghost before = v@;
    v.push(e);
    assert(entries_view(v@) =~= entries_view(before).push((e.key@, e.value@)));
}

/// The entries that every session of the tool has.
pub open spec fn required_entries() -> Seq<(Seq<char>, Seq<char>)> {
    seq![
        ("plugins_loading/enabled"@, "true"@),
        ("plugins/storage_manager/__required__"@, "true"@),
        ("metadata"@, "{ name: \"Zenoh Swiss Army Knife\", location: \"My Laptop\" }"@),
        (
            "timestamping"@,
            "{ enabled: { router: true, peer: true, client: true }, drop_future_timestamp: false }"@,
        ),
        ("transport/unicast/max_links"@, "10"@),
        ("transport/link/tx/keep_alive"@, "2"@),
    ]
}

/// The entries that every session of the tool has: plugins and the
/// storage manager enabled, the tool's metadata, timestamps for every
/// role, and the transport limits.
pub fn required_options() -> (r: Vec<ConfigEntry>)
    ensures
        entries_view(r@) == required_entries(),
{
    let mut v: Vec<ConfigEntry> = Vec::new();
    push_entry(&mut v, entry("plugins_loading/enabled", "true"));
    push_entry(&mut v, entry("plugins/storage_manager/__required__", "true"));
    push_entry(
        &mut v,
        entry("metadata", "{ name: \"Zenoh Swiss Army Knife\", location: \"My Laptop\" }"),
    );
    push_entry(
        &mut v,
        entry(
            "timestamping",
            "{ enabled: { router: true, peer: true, client: true }, drop_future_timestamp: false }",
        ),
    );
    push_entry(&mut v, entry("transport/unicast/max_links", "10"));
    push_entry(&mut v, entry("transport/link/tx/keep_alive", "2"));
    assert(entries_view(v@) =~= required_entries());
    v
}

/// The top-level options as the command line gave them.
#[derive(Debug)]
pub struct TopLevelArgs {
    pub name: Option<String>,
    pub no_multicast_scouting: Option<bool>,
    pub endpoints: Option<String>,
    pub rest: Option<String>,
    pub admin: Option<bool>,
    pub mode: Option<String>,
}

/// The configuration that the top-level options ask for, and whether the
/// mode was not recognised and `peer` was applied in its place.
#[derive(Debug)]
pub struct TopLevelConfig {
    pub entries: Vec<ConfigEntry>,
    pub mode_fell_back: bool,
}

/// The mode that a mode option applies: the one it names where it is
/// `peer`, `client` or `router`, and `peer` otherwise.
pub open spec fn mode_applied(m: Seq<char>) -> Seq<char> {
    if m == "client"@ || m == "router"@ {
        m
    } else {
        "peer"@
    }
}

/// Whether a mode option is one of the three modes.
pub open spec fn mode_known(m: Seq<char>) -> bool {
    m == "peer"@ || m == "client"@ || m == "router"@
}

/// The entries for the top-level options, in this order: the name as
/// metadata; multicast scouting switched off; the endpoints to connect
/// to; the REST plugin's port; the admin space opened where it is asked
/// for or a name is given; the mode, quoted.
pub open spec fn top_level_entries(a: TopLevelArgs) -> Seq<(Seq<char>, Seq<char>)> {
    let name_part = match a.name {
        Some(m) => seq![("metadata"@, "{ name: \""@ + m@ + "\" }"@)],
        None => Seq::empty(),
    };
    let scouting_part = if a.no_multicast_scouting == Some(true) {
        seq![("scouting/multicast/enabled"@, "false"@)]
    } else {
        Seq::empty()
    };
    let endpoints_part = match a.endpoints {
        Some(es) => seq![("connect/endpoints"@, es@)],
        None => Seq::empty(),
    };
    let rest_part = match a.rest {
        Some(port) => seq![("plugins/rest"@, "{http_port: "@ + port@ + " }"@)],
        None => Seq::empty(),
    };
    let admin_part = match a.admin {
        Some(on) => if on || a.name is Some {
            seq![
                ("adminspace/enabled"@, "true"@),
                ("adminspace/permissions"@, "{ read: true, write: true }"@),
            ]
        } else {
            Seq::empty()
        },
        None => Seq::empty(),
    };
    let mode_part = match a.mode {
        Some(m) => seq![("mode"@, "\""@ + mode_applied(m@) + "\""@)],
        None => Seq::empty(),
    };
    name_part + scouting_part + endpoints_part + rest_part + admin_part + mode_part
}

fn quoted_mode(m: &str) -> (r: (String, bool))
    ensures
        r.0@ == "\""@ + mode_applied(m@) + "\""@,
        r.1 == !mode_known(m@),
{
    let (applied, known) = if same_text(m, "peer") {
        ("peer", true)
    } else if same_text(m, "client") {
        ("client", true)
    } else if same_text(m, "router") {
        ("router", true)
    } else {
        ("peer", false)
    };
    let mut s = String::from_str("\"");
    s.append(applied);
    s.append("\"");
    (s, !known)
}

/// The configuration entries that the top-level options ask for.
pub fn top_level_options(args: &TopLevelArgs) -> (r: TopLevelConfig)
    ensures
        entries_view(r.entries@) == top_level_entries(*args),
        r.mode_fell_back == (args.mode matches Some(m) && !mode_known(m@)),
{
    let mut v: Vec<ConfigEntry> = Vec::new();
    let has_name = match &args.name {
        Some(m) => {
            let mut value = String::from_str("{ name: \"");
            value.append(m.as_str());
            value.append("\" }");
            push_entry(&mut v, ConfigEntry { key: String::from_str("metadata"), value });
            true
        },
        None => false,
    };
    if args.no_multicast_scouting == Some(true) {
        push_entry(&mut v, entry("scouting/multicast/enabled", "false"));
    }
    if let Some(es) = &args.endpoints {
        push_entry(&mut v, entry("connect/endpoints", es.as_str()));
    }
    if let Some(port) = &args.rest {
        let mut value = String::from_str("{http_port: ");
        value.append(port.as_str());
        value.append(" }");
        push_entry(&mut v, ConfigEntry { key: String::from_str("plugins/rest"), value });
    }
    if let Some(admin) = args.admin {
        if admin || has_name {
            push_entry(&mut v, entry("adminspace/enabled", "true"));
            push_entry(&mut v, entry("adminspace/permissions", "{ read: true, write: true }"));
        }
    }
    let mut mode_fell_back = false;
    if let Some(m) = &args.mode {
        let (value, fell_back) = quoted_mode(m.as_str());
        mode_fell_back = fell_back;
        push_entry(&mut v, ConfigEntry { key: String::from_str("mode"), value });
    }
    assert(entries_view(v@) =~= top_level_entries(*args));
    TopLevelConfig { entries: v, mode_fell_back }
}

} // verus!
